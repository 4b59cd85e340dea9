//! The durable data model: identifiers, entries, settings and the
//! configuration, with the rules each must meet.

use crate::errors;
use crate::text::{decimal, decimal_string, digit, is_blank, str_is_blank};
use std::collections::HashSet;
use std::time::Duration;
use vstd::prelude::*;
use vstd::string::*;

verus! {

/// The longest tag an entry may carry, in characters.
pub const MAX_TAG_LENGTH: usize = 100;

/// The shortest retention window, in days.
pub const MIN_RETENTION_DAYS: u32 = 1;

/// The longest retention window, in days.
pub const MAX_RETENTION_DAYS: u32 = 3650;

/// The only schema version of the configuration.
pub const SUPPORTED_VERSION: u32 = 1;

/// The first second that has no four-digit year: 10000-01-01T00:00:00Z.
pub const END_OF_TEXT_RANGE: u64 = 253_402_300_800;

/// The hexadecimal digit, in lower case, for a value below sixteen.
pub open spec fn hex_digit(d: nat) -> char {
    if d < 10 {
        digit(d)
    } else if d == 10 {
        'a'
    } else if d == 11 {
        'b'
    } else if d == 12 {
        'c'
    } else if d == 13 {
        'd'
    } else if d == 14 {
        'e'
    } else {
        'f'
    }
}

/// Sixteen to the power of `n`.
pub open spec fn sixteen_to(n: nat) -> nat
    decreases n,
{
    if n == 0 {
        1
    } else {
        16 * sixteen_to((n - 1) as nat)
    }
}

/// The hexadecimal digit of `value` at place `k` of thirty-two, counted from
/// the most significant one.
pub open spec fn uuid_digit(value: u128, k: int) -> char {
    hex_digit((value as nat / sixteen_to((31 - k) as nat)) % 16)
}

/// How many hyphens stand before place `i` in the text of a UUID.
pub open spec fn hyphens_before(i: int) -> int {
    if i > 23 {
        4
    } else if i > 18 {
        3
    } else if i > 13 {
        2
    } else if i > 8 {
        1
    } else {
        0
    }
}

/// The textual form of the UUID whose 128-bit value is `value`: its
/// thirty-two hexadecimal digits in lower case, the most significant first,
/// in groups of eight, four, four, four and twelve with a hyphen between.
pub open spec fn uuid_text(value: u128) -> Seq<char> {
    Seq::new(
        36,
        |i: int|
            if i == 8 || i == 13 || i == 18 || i == 23 {
                '-'
            } else {
                uuid_digit(value, i - hyphens_before(i))
            },
    )
}

/// The RFC 3339 text of the instant `secs` seconds and `nanos` nanoseconds
/// after the Unix epoch, as the `humantime` crate prints it. It is spoken of
/// for whole hundreds of nanoseconds only, the steps that the clock of every
/// machine can hold.
pub uninterp spec fn rfc3339_text(secs: u64, nanos: u32) -> Seq<char>;

/// The span of time of `secs` seconds and `nanos` nanoseconds.
pub uninterp spec fn duration_of(secs: u64, nanos: u32) -> Duration;

/// The bits that every random (version 4, RFC 4122 variant) UUID has in
/// common.
pub open spec fn is_random_uuid(value: u128) -> bool {
    value & 0xF000_C000_0000_0000_0000u128 == 0x4000_8000_0000_0000_0000u128
}

/// A fresh random UUID as a 128-bit value.
///
/// Calls `uuid::Uuid::new_v4` and `Uuid::as_u128`. `new_v4` masks a random
/// 128-bit number so that the version field is 4 and the variant field is
/// binary `10`; nothing else is claimed of the result.
#[verifier::external_body]
fn random_uuid() -> (value: u128)
    ensures
        is_random_uuid(value),
{
    uuid::Uuid::new_v4().as_u128()
}

/// The hyphenated lower-case text of a UUID.
///
/// Calls `uuid::Uuid::from_u128` and the `Display` impl of `Uuid`, which
/// prints the sixteen bytes of the value, the most significant first, as two
/// lower-case hexadecimal digits each, with hyphens after the fourth, sixth,
/// eighth and tenth byte.
#[verifier::external_body]
fn format_uuid(value: u128) -> (text: String)
    ensures
        text@ == uuid_text(value),
{
    uuid::Uuid::from_u128(value).to_string()
}

/// The time since the Unix epoch on the system clock, as whole seconds and the
/// nanoseconds beyond them; zero where the clock stands before the epoch.
///
/// Calls `SystemTime::now` and `SystemTime::duration_since`. The result
/// depends on the clock; only the range of the nanoseconds is claimed.
#[verifier::external_body]
fn system_clock() -> (now: (u64, u32))
    ensures
        now.1 < 1_000_000_000,
{
    let since_epoch = std::time::SystemTime::now()
        .duration_since(std::time::UNIX_EPOCH)
        .unwrap_or_default();
    (since_epoch.as_secs(), since_epoch.subsec_nanos())
}

/// Builds a `Duration` with `Duration::new`, which panics only where the
/// nanoseconds carry over into seconds that overflow.
#[verifier::external_body]
fn new_duration(secs: u64, nanos: u32) -> (span: Duration)
    requires
        nanos < 1_000_000_000,
    ensures
        span == duration_of(secs, nanos),
{
    Duration::new(secs, nanos)
}

/// The RFC 3339 text of an instant, in UTC.
///
/// Calls `humantime::format_rfc3339` and prints the result. `humantime`
/// refuses instants from the year 10000 on, which the bound on `secs`
/// excludes. The instant is handed over as a `SystemTime`, which on some
/// machines holds steps of a hundred nanoseconds only; `nanos` is a whole
/// number of such steps, so that the text is the same on every machine.
#[verifier::external_body]
fn format_rfc3339(secs: u64, nanos: u32) -> (text: String)
    requires
        secs < END_OF_TEXT_RANGE,
        nanos < 1_000_000_000,
        nanos % 100 == 0,
    ensures
        text@ == rfc3339_text(secs, nanos),
{
    humantime::format_rfc3339(std::time::UNIX_EPOCH + Duration::new(secs, nanos)).to_string()
}

/// Whether the file system holds anything at `path` right now.
///
/// Calls `Path::exists`. The answer depends on what is on disk, so nothing is
/// claimed of it.
#[verifier::external_body]
pub(crate) fn path_exists(path: &str) -> bool {
    std::path::Path::new(path).exists()
}

/// The identifier of an entry: a 128-bit value, random when generated.
#[derive(Debug, Clone, Copy, PartialEq, Eq, Hash, Structural)]
pub struct TunnelId(pub u128);

impl TunnelId {
    /// A fresh random identifier.
    pub fn new() -> (id: Self)
        ensures
            is_random_uuid(id.0),
    {
        TunnelId(random_uuid())
    }

    /// The identifier as UUID text.
    pub fn to_text(&self) -> (text: String)
        ensures
            text@ == uuid_text(self.0),
    {
        format_uuid(self.0)
    }

    /// The text by which diagnostics name the identifier.
    pub open spec fn debug_text(self) -> Seq<char> {
        "TunnelId("@ + uuid_text(self.0) + ")"@
    }

    /// The identifier as diagnostics name it.
    pub fn to_debug_text(&self) -> (text: String)
        ensures
            text@ == self.debug_text(),
    {
        let inner = format_uuid(self.0);
        let mut text = String::from_str("TunnelId(");
        text.append(inner.as_str());
        text.append(")");
        text
    }
}

impl Default for TunnelId {
    fn default() -> (id: Self)
        ensures
            is_random_uuid(id.0),
    {
        TunnelId::new()
    }
}

/// The role a tunnel plays; informational.
#[derive(Debug, Clone, Copy, PartialEq, Eq, Structural)]
pub enum TunnelMode {
    Client,
    Server,
}

impl TunnelMode {
    /// Every mode, in declaration order.
    pub fn all() -> (modes: Vec<TunnelMode>)
        ensures
            modes@ == seq![TunnelMode::Client, TunnelMode::Server],
    {
        let mut modes: Vec<TunnelMode> = Vec::new();
        modes.push(TunnelMode::Client);
        modes.push(TunnelMode::Server);
        modes
    }

    /// The display name of the mode.
    pub open spec fn label(self) -> Seq<char> {
        match self {
            TunnelMode::Client => "Client"@,
            TunnelMode::Server => "Server"@,
        }
    }

    /// The display name of the mode.
    pub fn to_text(&self) -> (text: String)
        ensures
            text@ == self.label(),
    {
        match self {
            TunnelMode::Client => String::from_str("Client"),
            TunnelMode::Server => String::from_str("Server"),
        }
    }
}

/// The identifier the operating system gave a process.
#[derive(Debug, Clone, Copy, PartialEq, Eq, Hash, Structural)]
pub struct ProcessId(pub u32);

impl From<u32> for ProcessId {
    fn from(pid: u32) -> (id: Self) {
        ProcessId(pid)
    }
}

impl vstd::std_specs::convert::FromSpecImpl<u32> for ProcessId {
    open spec fn obeys_from_spec() -> bool {
        true
    }

    open spec fn from_spec(pid: u32) -> Self {
        ProcessId(pid)
    }
}

impl ProcessId {
    /// The process id as a decimal numeral.
    pub fn to_text(&self) -> (text: String)
        ensures
            text@ == decimal(self.0 as nat),
    {
        decimal_string(self.0 as u64)
    }
}

/// An instant: the time since the Unix epoch, to the nanosecond.
#[derive(Debug, Clone, Copy, PartialEq, Eq, PartialOrd, Ord)]
pub struct Timestamp {
    secs: u64,
    nanos: u32,
}

impl Timestamp {
    #[verifier::type_invariant]
    spec fn well_formed(self) -> bool {
        self.nanos < 1_000_000_000
    }

    /// Whole seconds since the Unix epoch.
    pub closed spec fn secs(self) -> u64 {
        self.secs
    }

    /// Nanoseconds beyond the whole seconds; always below one thousand
    /// million.
    pub closed spec fn subsec_nanos(self) -> u32 {
        self.nanos
    }

    /// Nanoseconds since the Unix epoch.
    pub open spec fn total_nanos(self) -> int {
        self.secs() * 1_000_000_000 + self.subsec_nanos()
    }

    /// The time between `earlier` and `self` as seconds and nanoseconds; zero
    /// where `self` is not later.
    pub open spec fn gap(self, earlier: Timestamp) -> (u64, u32) {
        if self.total_nanos() <= earlier.total_nanos() {
            (0u64, 0u32)
        } else {
            let d = self.total_nanos() - earlier.total_nanos();
            ((d / 1_000_000_000) as u64, (d % 1_000_000_000) as u32)
        }
    }

    /// The instant `secs` seconds and `nanos` nanoseconds after the epoch;
    /// none where `nanos` is not below one thousand million.
    pub fn from_parts(secs: u64, nanos: u32) -> (stamp: Option<Timestamp>)
        ensures
            stamp is Some <==> nanos < 1_000_000_000,
            stamp matches Some(t) ==> t.secs() == secs && t.subsec_nanos() == nanos,
    {
        if nanos < 1_000_000_000 {
            Some(Timestamp { secs, nanos })
        } else {
            None
        }
    }

    /// The seconds and nanoseconds of the instant.
    pub fn parts(&self) -> (parts: (u64, u32))
        ensures
            parts.0 == self.secs(),
            parts.1 == self.subsec_nanos(),
            parts.1 < 1_000_000_000,
    {
        proof {
            use_type_invariant(self);
        }
        (self.secs, self.nanos)
    }

    /// The present instant on the system clock. Which instant that is depends
    /// on the clock; the nanoseconds beyond the whole seconds stay below one
    /// thousand million, as they do of every instant.
    pub fn now() -> (stamp: Timestamp)
        ensures
            stamp.subsec_nanos() < 1_000_000_000,
    {
        let (secs, nanos) = system_clock();
        Timestamp { secs, nanos }
    }

    /// The time from `earlier` to `self`; zero where `self` is not later.
    pub fn since(&self, earlier: &Timestamp) -> (span: Duration)
        ensures
            span == duration_of(self.gap(*earlier).0, self.gap(*earlier).1),
    {
        proof {
            use_type_invariant(self);
            use_type_invariant(earlier);
        }
        if self.secs < earlier.secs || (self.secs == earlier.secs && self.nanos <= earlier.nanos) {
            new_duration(0, 0)
        } else if self.nanos >= earlier.nanos {
            new_duration(self.secs - earlier.secs, self.nanos - earlier.nanos)
        } else {
            new_duration(
                self.secs - earlier.secs - 1,
                self.nanos + 1_000_000_000 - earlier.nanos,
            )
        }
    }

    /// The time that has passed since this instant; zero where the clock
    /// stands before it.
    pub fn elapsed(&self) -> (span: Duration)
        ensures
            exists|now: Timestamp| span == duration_of(now.gap(*self).0, now.gap(*self).1),
    {
        let now = Timestamp::now();
        now.since(self)
    }

    /// Whether `self` comes before `other`.
    pub fn is_before(&self, other: &Timestamp) -> (before: bool)
        ensures
            before == (self.total_nanos() < other.total_nanos()),
    {
        proof {
            use_type_invariant(self);
            use_type_invariant(other);
        }
        self.secs < other.secs || (self.secs == other.secs && self.nanos < other.nanos)
    }

    /// The nanoseconds of the instant in whole hundreds, the rest dropped.
    pub open spec fn hundreds_of_nanos(self) -> u32 {
        (self.subsec_nanos() - self.subsec_nanos() % 100) as u32
    }

    /// The instant as RFC 3339 text in UTC, to the hundred nanoseconds; none
    /// from the year 10000 on, which has no such text.
    pub fn to_text(&self) -> (text: Option<String>)
        ensures
            text is Some <==> self.secs() < END_OF_TEXT_RANGE,
            text matches Some(t) ==> t@ == rfc3339_text(self.secs(), self.hundreds_of_nanos()),
    {
        proof {
            use_type_invariant(self);
        }
        if self.secs < END_OF_TEXT_RANGE {
            Some(format_rfc3339(self.secs, self.nanos - self.nanos % 100))
        } else {
            None
        }
    }
}

/// What is known of an entry's process at the moment it is asked for.
#[derive(Debug)]
pub enum TunnelRuntimeState {
    Stopped,
    Starting,
    Running { pid: ProcessId, started_at: Timestamp, log_path: String },
    Failed { error: String, last_attempt: Timestamp, exit_code: Option<i32> },
}

impl Clone for TunnelRuntimeState {
    fn clone(&self) -> (copy: Self)
        ensures
            copy == *self,
    {
        match self {
            TunnelRuntimeState::Stopped => TunnelRuntimeState::Stopped,
            TunnelRuntimeState::Starting => TunnelRuntimeState::Starting,
            TunnelRuntimeState::Running { pid, started_at, log_path } => {
                TunnelRuntimeState::Running {
                    pid: *pid,
                    started_at: *started_at,
                    log_path: log_path.clone(),
                }
            },
            TunnelRuntimeState::Failed { error, last_attempt, exit_code } => {
                TunnelRuntimeState::Failed {
                    error: error.clone(),
                    last_attempt: *last_attempt,
                    exit_code: *exit_code,
                }
            },
        }
    }
}

/// Why an entry is refused.
#[derive(Debug)]
pub enum EntryError {
    /// The tag is empty or holds only whitespace.
    TagEmpty,
    /// The tag has `len` characters, more than `MAX_TAG_LENGTH`.
    TagTooLong { len: usize },
    /// The command-line arguments are empty or hold only whitespace.
    CliArgsEmpty,
}

impl EntryError {
    /// The message shown for the error.
    pub open spec fn text(self) -> Seq<char> {
        match self {
            EntryError::TagEmpty => errors::tunnel::validation::TAG_EMPTY@,
            EntryError::TagTooLong { len } => "Tunnel tag too long (max 100 characters): "@
                + decimal(len as nat),
            EntryError::CliArgsEmpty => errors::tunnel::validation::CLI_ARGS_EMPTY@,
        }
    }

    /// The message shown for the error.
    pub fn message(&self) -> (msg: String)
        ensures
            msg@ == self.text(),
    {
        match self {
            EntryError::TagEmpty => String::from_str(errors::tunnel::validation::TAG_EMPTY),
            EntryError::TagTooLong { len } => {
                let number = decimal_string(*len as u64);
                errors::tunnel::validation::tag_too_long(number.as_str())
            },
            EntryError::CliArgsEmpty => String::from_str(
                errors::tunnel::validation::CLI_ARGS_EMPTY,
            ),
        }
    }
}

/// One tunnel that can be managed.
#[derive(Debug)]
pub struct TunnelEntry {
    pub id: TunnelId,
    pub tag: String,
    pub mode: TunnelMode,
    pub cli_args: String,
    pub autostart: bool,
    /// Attached when the entry is handed to a caller; never persisted.
    pub runtime_state: Option<TunnelRuntimeState>,
}

impl Clone for TunnelEntry {
    fn clone(&self) -> (copy: Self)
        ensures
            copy == *self,
    {
        let runtime_state = match &self.runtime_state {
            Some(state) => Some(state.clone()),
            None => None,
        };
        TunnelEntry {
            id: self.id,
            tag: self.tag.clone(),
            mode: self.mode,
            cli_args: self.cli_args.clone(),
            autostart: self.autostart,
            runtime_state,
        }
    }
}

impl TunnelEntry {
    /// The first rule the entry breaks, if any: the tag is not blank, the tag
    /// has at most `MAX_TAG_LENGTH` characters, the arguments are not blank.
    pub open spec fn fault(self) -> Option<EntryError> {
        if is_blank(self.tag@) {
            Some(EntryError::TagEmpty)
        } else if self.tag@.len() > MAX_TAG_LENGTH {
            Some(EntryError::TagTooLong { len: self.tag@.len() as usize })
        } else if is_blank(self.cli_args@) {
            Some(EntryError::CliArgsEmpty)
        } else {
            None
        }
    }

    /// The entry meets every rule.
    pub open spec fn is_valid(self) -> bool {
        &&& !is_blank(self.tag@)
        &&& self.tag@.len() <= MAX_TAG_LENGTH
        &&& !is_blank(self.cli_args@)
    }

    /// Checks the entry and reports the first rule it breaks.
    pub fn validate(&self) -> (result: Result<(), EntryError>)
        ensures
            result is Ok <==> self.is_valid(),
            match result {
                Ok(_) => self.fault() is None,
                Err(e) => self.fault() == Some(e),
            },
    {
        if str_is_blank(self.tag.as_str()) {
            return Err(EntryError::TagEmpty);
        }
        let len = self.tag.as_str().unicode_len();
        if len > MAX_TAG_LENGTH {
            return Err(EntryError::TagTooLong { len });
        }
        if str_is_blank(self.cli_args.as_str()) {
            return Err(EntryError::CliArgsEmpty);
        }
        Ok(())
    }
}

/// Why the global settings are refused.
#[derive(Debug)]
pub enum SettingsError {
    /// Nothing exists at the configured path of the tunnel binary.
    BinaryNotFound { path: String },
    /// The retention window is outside `MIN_RETENTION_DAYS..=MAX_RETENTION_DAYS`.
    RetentionInvalid { days: u32 },
}

impl SettingsError {
    /// The message shown for the error.
    pub open spec fn text(self) -> Seq<char> {
        match self {
            SettingsError::BinaryNotFound { path } => "wstunnel binary not found at path: "@
                + path@,
            SettingsError::RetentionInvalid { days } =>
                "Log retention days must be between 1 and 3650 (10 years), got: "@ + decimal(
                    days as nat,
                ),
        }
    }

    /// The message shown for the error.
    pub fn message(&self) -> (msg: String)
        ensures
            msg@ == self.text(),
    {
        match self {
            SettingsError::BinaryNotFound { path } => {
                let mut msg = String::from_str("wstunnel binary not found at path: ");
                msg.append(path.as_str());
                msg
            },
            SettingsError::RetentionInvalid { days } => errors::logs::retention_invalid(*days),
        }
    }
}

/// Settings shared by every entry.
#[derive(Debug)]
pub struct GlobalSettings {
    /// Where the tunnel binary is, where it is not at its default place.
    pub wstunnel_binary_path: Option<String>,
    /// The directory that holds the log files.
    pub log_directory: String,
    /// After how many days a log file is deleted; never, where absent.
    pub log_retention_days: Option<u32>,
}

impl Clone for GlobalSettings {
    fn clone(&self) -> (copy: Self)
        ensures
            copy == *self,
    {
        let wstunnel_binary_path = match &self.wstunnel_binary_path {
            Some(path) => Some(path.clone()),
            None => None,
        };
        GlobalSettings {
            wstunnel_binary_path,
            log_directory: self.log_directory.clone(),
            log_retention_days: self.log_retention_days,
        }
    }
}

impl Default for GlobalSettings {
    fn default() -> (settings: Self)
        ensures
            settings.wstunnel_binary_path is None,
            settings.log_directory@ == "./logs"@,
            settings.log_retention_days is None,
    {
        GlobalSettings {
            wstunnel_binary_path: None,
            log_directory: default_log_directory(),
            log_retention_days: None,
        }
    }
}

/// The directory that holds log files unless the configuration names another.
pub fn default_log_directory() -> (dir: String)
    ensures
        dir@ == "./logs"@,
{
    crate::constants::default_log_directory()
}

impl GlobalSettings {
    /// The retention window is absent or within its bounds.
    pub open spec fn retention_ok(self) -> bool {
        self.log_retention_days matches Some(days) ==> MIN_RETENTION_DAYS <= days
            <= MAX_RETENTION_DAYS
    }

    /// The first rule the settings break, if any, where `binary_present`
    /// tells whether something exists at the configured binary path.
    pub open spec fn fault(self, binary_present: bool) -> Option<SettingsError> {
        if self.wstunnel_binary_path is Some && !binary_present {
            Some(SettingsError::BinaryNotFound { path: self.wstunnel_binary_path->0 })
        } else if !self.retention_ok() {
            Some(SettingsError::RetentionInvalid { days: self.log_retention_days->0 })
        } else {
            None
        }
    }

    /// Checks the settings against a given answer to whether the configured
    /// binary exists.
    pub fn validate_given(&self, binary_present: bool) -> (result: Result<(), SettingsError>)
        ensures
            match result {
                Ok(_) => self.fault(binary_present) is None,
                Err(e) => self.fault(binary_present) == Some(e),
            },
    {
        if let Some(path) = &self.wstunnel_binary_path {
            if !binary_present {
                return Err(SettingsError::BinaryNotFound { path: path.clone() });
            }
        }
        if let Some(days) = self.log_retention_days {
            if days < MIN_RETENTION_DAYS || days > MAX_RETENTION_DAYS {
                return Err(SettingsError::RetentionInvalid { days });
            }
        }
        Ok(())
    }

    /// Looks on disk for the configured binary, where one is configured.
    pub fn probe_binary(&self) -> (present: bool)
        ensures
            self.wstunnel_binary_path is None ==> present,
    {
        match &self.wstunnel_binary_path {
            Some(path) => path_exists(path.as_str()),
            None => true,
        }
    }

    /// Checks the settings; the configured binary is looked for on disk.
    ///
    /// With no binary configured the outcome depends on the retention window
    /// alone.
    pub fn validate(&self) -> (result: Result<(), SettingsError>)
        ensures
            exists|binary_present: bool|
                match result {
                    Ok(_) => #[trigger] self.fault(binary_present) is None,
                    Err(e) => self.fault(binary_present) == Some(e),
                },
            self.wstunnel_binary_path is None ==> (result is Ok <==> self.retention_ok()),
            result is Ok ==> self.retention_ok(),
    {
        let present = self.probe_binary();
        self.validate_given(present)
    }
}

/// Why a configuration is refused.
#[derive(Debug)]
pub enum ConfigError {
    /// The schema version is not `SUPPORTED_VERSION`.
    UnsupportedVersion { version: u32 },
    /// An entry carries the identifier of an entry before it.
    DuplicateId { id: TunnelId },
    /// The entry named `tag` breaks a rule.
    InvalidTunnel { tag: String, cause: EntryError },
    /// The global settings break a rule.
    InvalidGlobal { settings: SettingsError },
}

impl ConfigError {
    /// The message shown for the error.
    pub open spec fn text(self) -> Seq<char> {
        match self {
            ConfigError::UnsupportedVersion { version } => "Unsupported config version: "@
                + decimal(version as nat) + ". Expected version 1"@,
            ConfigError::DuplicateId { id } => "Duplicate tunnel ID found: "@ + id.debug_text(),
            ConfigError::InvalidTunnel { tag, cause } => "Validation failed for tunnel: "@ + tag@,
            ConfigError::InvalidGlobal { settings } => errors::config::GLOBAL_VALIDATION_FAILED@,
        }
    }

    /// The message shown for the error.
    pub fn message(&self) -> (msg: String)
        ensures
            msg@ == self.text(),
    {
        match self {
            ConfigError::UnsupportedVersion { version } => errors::config::unsupported_version(
                *version,
            ),
            ConfigError::DuplicateId { id } => {
                let name = id.to_debug_text();
                errors::tunnel::validation::duplicate_id(name.as_str())
            },
            ConfigError::InvalidTunnel { tag, cause } => {
                let mut msg = String::from_str("Validation failed for tunnel: ");
                msg.append(tag.as_str());
                msg
            },
            ConfigError::InvalidGlobal { settings } => String::from_str(
                errors::config::GLOBAL_VALIDATION_FAILED,
            ),
        }
    }
}

/// The schema version a configuration has unless it says otherwise.
pub fn default_version() -> (version: u32)
    ensures
        version == SUPPORTED_VERSION,
{
    SUPPORTED_VERSION
}

/// The durable truth: the settings and the entries, in declaration order.
#[derive(Debug)]
pub struct Config {
    pub version: u32,
    pub global: GlobalSettings,
    pub tunnels: Vec<TunnelEntry>,
}

impl Clone for Config {
    fn clone(&self) -> (copy: Self)
        ensures
            copy.version == self.version,
            copy.global == self.global,
            copy.tunnels@ == self.tunnels@,
    {
        let mut tunnels: Vec<TunnelEntry> = Vec::new();
        let mut i: usize = 0;
        while i < self.tunnels.len()
            invariant
                i <= self.tunnels.len(),
                tunnels@ == self.tunnels@.take(i as int),
            decreases self.tunnels.len() - i,
        {
            tunnels.push(self.tunnels[i].clone());
            i += 1;
        }
        Config { version: self.version, global: self.global.clone(), tunnels }
    }
}

impl Default for Config {
    fn default() -> (config: Self)
        ensures
            config.is_default(),
    {
        Config { version: default_version(), global: GlobalSettings::default(), tunnels: Vec::new() }
    }
}

/// The identifiers of `tunnels[..upto]`.
pub open spec fn ids_before(tunnels: Seq<TunnelEntry>, upto: int) -> Set<u128> {
    Set::new(|id: u128| exists|j: int| 0 <= j < upto && j < tunnels.len() && tunnels[j].id.0 == id)
}

/// No two entries share an identifier.
pub open spec fn ids_unique(tunnels: Seq<TunnelEntry>) -> bool {
    forall|i: int, j: int|
        0 <= i < j < tunnels.len() ==> #[trigger] tunnels[i].id != #[trigger] tunnels[j].id
}

/// What is wrong with the entry at index `i`, if anything: it repeats the
/// identifier of an earlier entry, or else it breaks a rule of its own.
pub open spec fn tunnel_fault_at(tunnels: Seq<TunnelEntry>, i: int) -> Option<ConfigError> {
    if ids_before(tunnels, i).contains(tunnels[i].id.0) {
        Some(ConfigError::DuplicateId { id: tunnels[i].id })
    } else {
        match tunnels[i].fault() {
            Some(cause) => Some(ConfigError::InvalidTunnel { tag: tunnels[i].tag, cause }),
            None => None,
        }
    }
}

/// The fault of the first faulty entry at or after index `from`.
pub open spec fn first_tunnel_fault(tunnels: Seq<TunnelEntry>, from: int) -> Option<ConfigError>
    decreases tunnels.len() - from,
{
    if from < 0 || from >= tunnels.len() {
        None
    } else if tunnel_fault_at(tunnels, from) is Some {
        tunnel_fault_at(tunnels, from)
    } else {
        first_tunnel_fault(tunnels, from + 1)
    }
}

impl Config {
    /// The configuration is the default one: the supported version, no
    /// entries, no binary named, logs in `./logs` and kept for ever.
    pub open spec fn is_default(self) -> bool {
        &&& self.version == SUPPORTED_VERSION
        &&& self.global.wstunnel_binary_path is None
        &&& self.global.log_directory@ == "./logs"@
        &&& self.global.log_retention_days is None
        &&& self.tunnels@.len() == 0
    }

    /// The first rule the configuration breaks, if any: the version, then the
    /// entries in order, then the global settings.
    pub open spec fn fault(self, binary_present: bool) -> Option<ConfigError> {
        if self.version != SUPPORTED_VERSION {
            Some(ConfigError::UnsupportedVersion { version: self.version })
        } else if first_tunnel_fault(self.tunnels@, 0) is Some {
            first_tunnel_fault(self.tunnels@, 0)
        } else {
            match self.global.fault(binary_present) {
                Some(settings) => Some(ConfigError::InvalidGlobal { settings }),
                None => None,
            }
        }
    }

    /// Everything a valid configuration owes that does not depend on the
    /// disk: the version, distinct identifiers, valid entries and a retention
    /// window within bounds.
    pub open spec fn well_formed(self) -> bool {
        &&& self.version == SUPPORTED_VERSION
        &&& ids_unique(self.tunnels@)
        &&& forall|i: int| 0 <= i < self.tunnels@.len() ==> (#[trigger] self.tunnels@[i]).is_valid()
        &&& self.global.retention_ok()
    }

    /// The configuration meets every rule, where `binary_present` tells
    /// whether something exists at the configured binary path.
    pub open spec fn is_valid(self, binary_present: bool) -> bool {
        &&& self.well_formed()
        &&& (self.global.wstunnel_binary_path is Some ==> binary_present)
    }

    /// Checks the configuration against a given answer to whether the
    /// configured binary exists.
    pub fn validate_given(&self, binary_present: bool) -> (result: Result<(), ConfigError>)
        ensures
            result is Ok <==> self.is_valid(binary_present),
            match result {
                Ok(_) => self.fault(binary_present) is None,
                Err(e) => self.fault(binary_present) == Some(e),
            },
    {
        proof {
            lemma_fault_iff_invalid(*self, binary_present);
        }
        if self.version != SUPPORTED_VERSION {
            return Err(ConfigError::UnsupportedVersion { version: self.version });
        }
        let mut seen: HashSet<u128> = HashSet::new();
        let mut i: usize = 0;
        while i < self.tunnels.len()
            invariant
                i <= self.tunnels.len(),
                self.version == SUPPORTED_VERSION,
                seen@ == ids_before(self.tunnels@, i as int),
                first_tunnel_fault(self.tunnels@, 0) == first_tunnel_fault(self.tunnels@, i as int),
            decreases self.tunnels.len() - i,
        {
            let tunnel = &self.tunnels[i];
            let fresh = seen.insert(tunnel.id.0);
            if !fresh {
                return Err(ConfigError::DuplicateId { id: tunnel.id });
            }
            match tunnel.validate() {
                Ok(_) => {},
                Err(cause) => {
                    return Err(ConfigError::InvalidTunnel { tag: tunnel.tag.clone(), cause });
                },
            }
            proof {
                assert(ids_before(self.tunnels@, i + 1) =~= ids_before(self.tunnels@, i as int).insert(
                    self.tunnels@[i as int].id.0,
                ));
            }
            i += 1;
        }
        match self.global.validate_given(binary_present) {
            Ok(_) => Ok(()),
            Err(settings) => Err(ConfigError::InvalidGlobal { settings }),
        }
    }

    /// Checks the configuration; the configured binary is looked for on disk.
    ///
    /// With no binary configured the outcome is decided by the configuration
    /// alone.
    pub fn validate(&self) -> (result: Result<(), ConfigError>)
        ensures
            exists|binary_present: bool|
                match result {
                    Ok(_) => #[trigger] self.fault(binary_present) is None,
                    Err(e) => self.fault(binary_present) == Some(e),
                },
            self.global.wstunnel_binary_path is None ==> (result is Ok <==> self.well_formed()),
            result is Ok ==> self.well_formed(),
    {
        let present = self.global.probe_binary();
        self.validate_given(present)
    }
}

/// An entry is accepted exactly when its tag is not blank, its tag has at
/// most one hundred characters and its arguments are not blank.
pub proof fn lemma_entry_accepted_iff(entry: TunnelEntry)
    ensures
        entry.fault() is None <==> crate::text::trim(entry.tag@).len() > 0 && entry.tag@.len()
            <= 100 && crate::text::trim(entry.cli_args@).len() > 0,
{
    crate::text::lemma_blank_iff_trim_empty(entry.tag@);
    crate::text::lemma_blank_iff_trim_empty(entry.cli_args@);
}

/// No entry from `from` on is faulty exactly when none of them repeats an
/// earlier identifier or breaks a rule.
pub proof fn lemma_first_tunnel_fault(tunnels: Seq<TunnelEntry>, from: int)
    requires
        0 <= from,
    ensures
        first_tunnel_fault(tunnels, from) is None <==> forall|i: int|
            from <= i < tunnels.len() ==> #[trigger] tunnel_fault_at(tunnels, i) is None,
    decreases tunnels.len() - from,
{
    if from < tunnels.len() {
        lemma_first_tunnel_fault(tunnels, from + 1);
        if tunnel_fault_at(tunnels, from) is None && first_tunnel_fault(tunnels, from + 1) is None {
            assert forall|i: int| from <= i < tunnels.len() implies #[trigger] tunnel_fault_at(
                tunnels,
                i,
            ) is None by {
                if i > from {
                }
            }
        }
    }
}

/// A configuration is rejected exactly when its version is not the supported
/// one, or two entries share an identifier, or an entry or the global
/// settings break a rule.
pub proof fn lemma_fault_iff_invalid(config: Config, binary_present: bool)
    ensures
        config.fault(binary_present) is Some <==> !config.is_valid(binary_present),
        config.fault(binary_present) is Some <==> {
            ||| config.version != 1
            ||| exists|i: int, j: int|
                0 <= i < j < config.tunnels@.len() && config.tunnels@[i].id == config.tunnels@[j].id
            ||| exists|i: int|
                0 <= i < config.tunnels@.len() && (#[trigger] config.tunnels@[i]).fault() is Some
            ||| config.global.fault(binary_present) is Some
        },
{
    let tunnels = config.tunnels@;
    lemma_first_tunnel_fault(tunnels, 0);
    if first_tunnel_fault(tunnels, 0) is None {
        assert forall|i: int, j: int| 0 <= i < j < tunnels.len() implies #[trigger] tunnels[i].id
            != #[trigger] tunnels[j].id by {
            assert(tunnel_fault_at(tunnels, j) is None);
            if tunnels[i].id == tunnels[j].id {
                assert(ids_before(tunnels, j).contains(tunnels[j].id.0));
            }
        }
        assert forall|i: int| 0 <= i < tunnels.len() implies (#[trigger] tunnels[i]).is_valid() by {
            assert(tunnel_fault_at(tunnels, i) is None);
        }
    } else {
        let k = choose|k: int| 0 <= k < tunnels.len() && #[trigger] tunnel_fault_at(tunnels, k) is Some;
        if ids_before(tunnels, k).contains(tunnels[k].id.0) {
            let j = choose|j: int| 0 <= j < k && j < tunnels.len() && tunnels[j].id.0 == tunnels[k].id.0;
            assert(tunnels[j].id == tunnels[k].id);
        } else {
            assert(tunnels[k].fault() is Some);
            assert(!tunnels[k].is_valid());
        }
    }
    if exists|i: int, j: int| 0 <= i < j < tunnels.len() && tunnels[i].id == tunnels[j].id {
        let (i, j) = choose|i: int, j: int|
            0 <= i < j < tunnels.len() && tunnels[i].id == tunnels[j].id;
        assert(ids_before(tunnels, j).contains(tunnels[j].id.0));
        assert(tunnel_fault_at(tunnels, j) is Some);
    }
    if exists|i: int| 0 <= i < tunnels.len() && (#[trigger] tunnels[i]).fault() is Some {
        let i = choose|i: int| 0 <= i < tunnels.len() && (#[trigger] tunnels[i]).fault() is Some;
        assert(tunnel_fault_at(tunnels, i) is Some);
    }
}

} // verus!
