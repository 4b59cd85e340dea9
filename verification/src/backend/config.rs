//! The configuration store: what to do with what was read from the
//! configuration file, the order in which a configuration is written so that
//! the file is never left half written, and which log files a retention
//! sweep deletes.

use crate::backend::process::{is_disk_full, tells_disk_full};
use crate::backend::types::{Config, ConfigError, Timestamp};
use crate::errors;
use crate::text::to_chars;
use vstd::prelude::*;
use vstd::string::*;

verus! {

/// The seconds of one day.
pub const SECONDS_PER_DAY: u64 = 86_400;

/// How long the retention sweeper rests between two sweeps, in seconds.
pub const SWEEP_INTERVAL_SECS: u64 = 86_400;

/// The extension of log files, with its dot.
pub const LOG_SUFFIX: &'static str = ".log";

/// Why a configuration could not be saved.
#[derive(Debug)]
pub enum SaveError {
    /// The configuration could not be turned into its file form.
    Serialize,
    /// The directory `dir` for the file could not be created.
    CreateDirectory { dir: String },
    /// Storage is exhausted.
    DiskFull,
    /// The temporary file at `path` could not be written.
    WriteTemp { path: String },
    /// The temporary file could not be reopened.
    OpenTemp,
    /// The temporary file could not be forced to storage.
    Sync,
    /// The temporary file `from` could not be moved over the file `to`.
    Rename { from: String, to: String },
}

impl SaveError {
    /// The message shown for the error.
    pub open spec fn text(self) -> Seq<char> {
        match self {
            SaveError::Serialize => "Failed to serialize config to YAML"@,
            SaveError::CreateDirectory { dir } => "Failed to create config directory: "@ + dir@,
            SaveError::DiskFull => errors::disk::FULL@,
            SaveError::WriteTemp { path } => "Failed to write temporary config to "@ + path@,
            SaveError::OpenTemp => errors::config::FAILED_TO_OPEN_TEMP@,
            SaveError::Sync => errors::config::FAILED_TO_FSYNC@,
            SaveError::Rename { from, to } => "Failed to rename "@ + from@ + " to "@ + to@,
        }
    }

    /// The message shown for the error.
    pub fn message(&self) -> (msg: String)
        ensures
            msg@ == self.text(),
    {
        match self {
            SaveError::Serialize => errors::config::failed_to_serialize(),
            SaveError::CreateDirectory { dir } => errors::config::failed_to_create_dir(
                dir.as_str(),
            ),
            SaveError::DiskFull => String::from_str(errors::disk::FULL),
            SaveError::WriteTemp { path } => errors::config::failed_to_write_temp(path.as_str()),
            SaveError::OpenTemp => String::from_str(errors::config::FAILED_TO_OPEN_TEMP),
            SaveError::Sync => String::from_str(errors::config::FAILED_TO_FSYNC),
            SaveError::Rename { from, to } => errors::config::failed_to_rename(
                from.as_str(),
                to.as_str(),
            ),
        }
    }
}

/// One stage of saving a configuration.
#[derive(Debug, Clone, Copy, PartialEq, Eq, Structural)]
pub enum SaveStage {
    /// Turn the configuration into its file form.
    Serialize,
    /// Create the directory that holds the file.
    CreateDirectory,
    /// Write the file form to the temporary sibling of the file.
    WriteTemp,
    /// Reopen the temporary file.
    OpenTemp,
    /// Force the temporary file to storage.
    SyncTemp,
    /// Move the temporary file over the file.
    Rename,
}

/// What follows a stage of saving that went well.
#[derive(Debug, Clone, Copy, PartialEq, Eq, Structural)]
pub enum SaveNext {
    /// Carry out this stage.
    Do(SaveStage),
    /// The configuration is saved.
    Finished,
}

/// The paths that saving a configuration works on.
#[derive(Debug)]
pub struct SavePaths {
    /// The configuration file.
    pub target: String,
    /// Its temporary sibling.
    pub temp: String,
    /// The directory that holds both.
    pub directory: String,
}

impl SaveStage {
    /// The place of the stage in the order of saving.
    pub open spec fn rank(self) -> int {
        match self {
            SaveStage::Serialize => 0,
            SaveStage::CreateDirectory => 1,
            SaveStage::WriteTemp => 2,
            SaveStage::OpenTemp => 3,
            SaveStage::SyncTemp => 4,
            SaveStage::Rename => 5,
        }
    }

    /// The stage changes the configuration file itself.
    pub open spec fn touches_target(self) -> bool {
        self == SaveStage::Rename
    }

    /// What follows the stage when it went well.
    pub open spec fn successor(self) -> SaveNext {
        match self {
            SaveStage::Serialize => SaveNext::Do(SaveStage::CreateDirectory),
            SaveStage::CreateDirectory => SaveNext::Do(SaveStage::WriteTemp),
            SaveStage::WriteTemp => SaveNext::Do(SaveStage::OpenTemp),
            SaveStage::OpenTemp => SaveNext::Do(SaveStage::SyncTemp),
            SaveStage::SyncTemp => SaveNext::Do(SaveStage::Rename),
            SaveStage::Rename => SaveNext::Finished,
        }
    }

    /// The error that the failure of the stage amounts to, where the failure
    /// was reported with the words `error`.
    pub open spec fn failure(self, error: Seq<char>, paths: SavePaths) -> SaveError {
        match self {
            SaveStage::Serialize => SaveError::Serialize,
            SaveStage::CreateDirectory => SaveError::CreateDirectory { dir: paths.directory },
            SaveStage::WriteTemp => if tells_disk_full(error) {
                SaveError::DiskFull
            } else {
                SaveError::WriteTemp { path: paths.temp }
            },
            SaveStage::OpenTemp => SaveError::OpenTemp,
            SaveStage::SyncTemp => SaveError::Sync,
            SaveStage::Rename => SaveError::Rename { from: paths.temp, to: paths.target },
        }
    }
}

/// The first stage of saving a configuration.
pub fn first_save_stage() -> (stage: SaveStage)
    ensures
        stage == SaveStage::Serialize,
{
    SaveStage::Serialize
}

/// What is to be done after `stage` ended with `outcome`: the next stage, or
/// nothing more; or the error to report, where the stage failed.
pub fn after_save_stage(stage: SaveStage, outcome: &Result<(), String>, paths: &SavePaths) -> (next:
    Result<SaveNext, SaveError>)
    ensures
        match *outcome {
            Ok(_) => next == Ok::<SaveNext, SaveError>(stage.successor()),
            Err(error) => next == Err::<SaveNext, SaveError>(stage.failure(error@, *paths)),
        },
{
    match outcome {
        Ok(_) => Ok(
            match stage {
                SaveStage::Serialize => SaveNext::Do(SaveStage::CreateDirectory),
                SaveStage::CreateDirectory => SaveNext::Do(SaveStage::WriteTemp),
                SaveStage::WriteTemp => SaveNext::Do(SaveStage::OpenTemp),
                SaveStage::OpenTemp => SaveNext::Do(SaveStage::SyncTemp),
                SaveStage::SyncTemp => SaveNext::Do(SaveStage::Rename),
                SaveStage::Rename => SaveNext::Finished,
            },
        ),
        Err(error) => Err(
            match stage {
                SaveStage::Serialize => SaveError::Serialize,
                SaveStage::CreateDirectory => SaveError::CreateDirectory {
                    dir: paths.directory.clone(),
                },
                SaveStage::WriteTemp => if is_disk_full(error.as_str()) {
                    SaveError::DiskFull
                } else {
                    SaveError::WriteTemp { path: paths.temp.clone() }
                },
                SaveStage::OpenTemp => SaveError::OpenTemp,
                SaveStage::SyncTemp => SaveError::Sync,
                SaveStage::Rename => SaveError::Rename {
                    from: paths.temp.clone(),
                    to: paths.target.clone(),
                },
            },
        ),
    }
}

/// The stages of saving come in one order, and the configuration file itself
/// is changed by the last of them only: when it is reached, the temporary
/// file has been written and forced to storage.
pub proof fn lemma_save_order(stage: SaveStage)
    ensures
        stage.successor() matches SaveNext::Do(next) ==> next.rank() == stage.rank() + 1,
        stage.successor() == SaveNext::Finished <==> stage.touches_target(),
        stage.touches_target() ==> stage.rank() > SaveStage::WriteTemp.rank() && stage.rank()
            > SaveStage::SyncTemp.rank(),
{
}

/// Why a configuration could not be loaded.
#[derive(Debug)]
pub enum LoadError {
    /// The file at `path` holds a configuration that breaks a rule.
    ValidationFailed { path: String, cause: ConfigError },
    /// The file could not be understood; it was replaced by the default
    /// configuration, and a copy of it was asked for at `backup_path`.
    Corrupted { backup_path: String, error: String },
    /// The file at `path` could not be read.
    ReadFailed { path: String },
    /// The default configuration could not be written to `path`.
    CreateDefaultFailed { path: String },
}

impl LoadError {
    /// The message shown for the error.
    pub open spec fn text(self) -> Seq<char> {
        match self {
            LoadError::ValidationFailed { path, cause } => "Config validation failed for "@
                + path@,
            LoadError::Corrupted { backup_path, error } =>
                "Config file was corrupted and has been replaced with defaults. Backup saved to "@
                    + backup_path@ + ". Error: "@ + error@,
            LoadError::ReadFailed { path } => "Failed to read config from "@ + path@,
            LoadError::CreateDefaultFailed { path } => "Failed to create default config at "@
                + path@,
        }
    }

    /// The message shown for the error.
    pub fn message(&self) -> (msg: String)
        ensures
            msg@ == self.text(),
    {
        match self {
            LoadError::ValidationFailed { path, cause } => errors::config::validation_failed(
                path.as_str(),
            ),
            LoadError::Corrupted { backup_path, error } => errors::config::corrupted(
                "",
                backup_path.as_str(),
                error.as_str(),
            ),
            LoadError::ReadFailed { path } => errors::config::failed_to_read(path.as_str()),
            LoadError::CreateDefaultFailed { path } => errors::config::failed_to_create_default(
                path.as_str(),
            ),
        }
    }
}

/// What came of reading the configuration file.
#[derive(Debug)]
pub enum ReadOutcome {
    /// There is no such file.
    Missing,
    /// The file could not be read, for the reason that `error` spells.
    Unreadable { error: String },
    /// The file was read, and its content did not parse, for the reason that
    /// `error` spells.
    Unparsable { error: String },
    /// The file was read and holds `config`.
    Parsed { config: Config },
}

/// What is to be done once the configuration file has been read.
#[derive(Debug)]
pub enum LoadDecision {
    /// Work with `config`; the file stays as it is.
    Use { config: Config },
    /// Write `config`, the default one, to the file, and work with it.
    CreateDefault { config: Config },
    /// Copy the file to the backup path as well as can be done, write
    /// `config`, the default one, over it, and report `error`.
    ReplaceCorrupted { config: Config, error: LoadError },
    /// Report `error`; the file stays as it is.
    Fail { error: LoadError },
}

impl LoadDecision {
    /// The decision asks for the configuration file to be written.
    pub open spec fn writes_file(self) -> bool {
        self is CreateDefault || self is ReplaceCorrupted
    }
}

/// What `decide_load` owes for a file at `path` with its backup at
/// `backup_path`, given whether the binary that the configuration names is
/// on disk.
pub open spec fn load_decision_ok(
    outcome: ReadOutcome,
    path: Seq<char>,
    backup_path: Seq<char>,
    binary_present: bool,
    decision: LoadDecision,
) -> bool {
    match outcome {
        ReadOutcome::Missing => decision matches LoadDecision::CreateDefault { config }
            && config.is_default(),
        ReadOutcome::Unreadable { error } => decision matches LoadDecision::Fail {
            error: LoadError::ReadFailed { path: failed },
        } && failed@ == path,
        ReadOutcome::Unparsable { error } => decision matches LoadDecision::ReplaceCorrupted {
            config,
            error: LoadError::Corrupted { backup_path: kept, error: reason },
        } && config.is_default() && kept@ == backup_path && reason == error,
        ReadOutcome::Parsed { config } => match config.fault(binary_present) {
            None => decision matches LoadDecision::Use { config: used } && used == config,
            Some(fault) => decision matches LoadDecision::Fail {
                error: LoadError::ValidationFailed { path: failed, cause },
            } && failed@ == path && cause == fault,
        },
    }
}

/// Decides what to do with what was read from the configuration file at
/// `path`, given whether the binary that the configuration names is on disk:
/// a missing file is created with the default configuration; a file that
/// does not parse is backed up and replaced by the default configuration,
/// and reported; a configuration that breaks a rule is reported and the file
/// left alone; a valid one is used as it is.
pub fn decide_load_given(
    outcome: ReadOutcome,
    path: &str,
    backup_path: &str,
    binary_present: bool,
) -> (decision: LoadDecision)
    ensures
        load_decision_ok(outcome, path@, backup_path@, binary_present, decision),
{
    match outcome {
        ReadOutcome::Missing => LoadDecision::CreateDefault { config: Config::default() },
        ReadOutcome::Unreadable { error } => LoadDecision::Fail {
            error: LoadError::ReadFailed { path: String::from_str(path) },
        },
        ReadOutcome::Unparsable { error } => LoadDecision::ReplaceCorrupted {
            config: Config::default(),
            error: LoadError::Corrupted { backup_path: String::from_str(backup_path), error },
        },
        ReadOutcome::Parsed { config } => match config.validate_given(binary_present) {
            Ok(_) => LoadDecision::Use { config },
            Err(cause) => LoadDecision::Fail {
                error: LoadError::ValidationFailed { path: String::from_str(path), cause },
            },
        },
    }
}

/// Decides what to do with what was read from the configuration file at
/// `path`; the binary that a configuration names is looked for on disk.
pub fn decide_load(outcome: ReadOutcome, path: &str, backup_path: &str) -> (decision: LoadDecision)
    ensures
        exists|binary_present: bool| #[trigger]
            load_decision_ok(outcome, path@, backup_path@, binary_present, decision),
        outcome matches ReadOutcome::Parsed { config } ==> !decision.writes_file() && (
        config.global.wstunnel_binary_path is None ==> (decision is Use
            <==> config.well_formed())),
{
    let binary_present = match &outcome {
        ReadOutcome::Parsed { config } => config.global.probe_binary(),
        _ => true,
    };
    let ghost read = outcome;
    let decision = decide_load_given(outcome, path, backup_path, binary_present);
    proof {
        assert(load_decision_ok(read, path@, backup_path@, binary_present, decision));
        match read {
            ReadOutcome::Parsed { config } => {
                crate::backend::types::lemma_fault_iff_invalid(config, binary_present);
            },
            _ => {},
        }
    }
    decision
}

/// A configuration that is read from the file is never answered by writing
/// the file: it is used, or it is reported.
pub proof fn lemma_parsed_config_leaves_file(
    config: Config,
    path: Seq<char>,
    backup_path: Seq<char>,
    binary_present: bool,
    decision: LoadDecision,
)
    requires
        load_decision_ok(
            ReadOutcome::Parsed { config },
            path,
            backup_path,
            binary_present,
            decision,
        ),
    ensures
        !decision.writes_file(),
        decision is Use <==> config.is_valid(binary_present),
{
    crate::backend::types::lemma_fault_iff_invalid(config, binary_present);
}

/// A valid configuration that is read from the file is the one that is
/// used, unchanged.
pub proof fn lemma_valid_config_is_used(
    config: Config,
    path: Seq<char>,
    backup_path: Seq<char>,
    binary_present: bool,
    decision: LoadDecision,
)
    requires
        config.is_valid(binary_present),
        load_decision_ok(
            ReadOutcome::Parsed { config },
            path,
            backup_path,
            binary_present,
            decision,
        ),
    ensures
        decision == (LoadDecision::Use { config }),
{
    crate::backend::types::lemma_fault_iff_invalid(config, binary_present);
}

/// The instant before which a log file is old enough to delete: as many days
/// before `now` as the retention window has, and not before the epoch.
pub open spec fn cutoff_nanos(now: Timestamp, retention_days: u32) -> int {
    let back = now.total_nanos() - retention_days * SECONDS_PER_DAY * 1_000_000_000;
    if back < 0 {
        0
    } else {
        back
    }
}

/// The instant before which a log file is old enough to delete.
pub fn retention_cutoff(now: &Timestamp, retention_days: u32) -> (cutoff: Timestamp)
    ensures
        cutoff.total_nanos() == cutoff_nanos(*now, retention_days),
{
    let (secs, nanos) = now.parts();
    let window: u64 = (retention_days as u64) * SECONDS_PER_DAY;
    let stamp = if secs >= window {
        Timestamp::from_parts(secs - window, nanos)
    } else {
        Timestamp::from_parts(0, 0)
    };
    match stamp {
        Some(cutoff) => cutoff,
        None => *now,
    }
}

/// `name` is the name of a log file: it ends in `.log` and has something
/// before that.
pub open spec fn names_log_file(name: Seq<char>) -> bool {
    name.len() > 4 && name.subrange(name.len() - 4, name.len() as int) == LOG_SUFFIX@
}

/// Whether `name` is the name of a log file.
pub fn is_log_file(name: &str) -> (log: bool)
    ensures
        log == names_log_file(name@),
{
    let chars = to_chars(name);
    let n = chars.len();
    if n <= 4 {
        return false;
    }
    proof {
        reveal_strlit(".log");
        let tail = name@.subrange(n - 4, n as int);
        assert(tail.len() == 4);
        assert(tail[0] == chars@[n - 4]);
        assert(tail[1] == chars@[n - 3]);
        assert(tail[2] == chars@[n - 2]);
        assert(tail[3] == chars@[n - 1]);
        if chars@[n - 4] == '.' && chars@[n - 3] == 'l' && chars@[n - 2] == 'o' && chars@[n - 1]
            == 'g' {
            assert(tail =~= LOG_SUFFIX@);
        }
    }
    chars[n - 4] == '.' && chars[n - 3] == 'l' && chars[n - 2] == 'o' && chars[n - 1] == 'g'
}

/// What a retention sweep knows of one file in the log directory.
#[derive(Debug)]
pub struct LogFile {
    /// The name of the file, without its directory.
    pub name: String,
    /// When the file was last changed; absent where that cannot be told.
    pub modified: Option<Timestamp>,
}

impl LogFile {
    /// The sweep deletes the file: it is a log file that is known to have
    /// been changed last before the cutoff.
    pub open spec fn expired(self, cutoff: Timestamp) -> bool {
        names_log_file(self.name@) && (self.modified matches Some(modified)
            && modified.total_nanos() < cutoff.total_nanos())
    }
}

/// Whether a retention sweep with the given cutoff deletes `file`.
pub fn should_delete(file: &LogFile, cutoff: &Timestamp) -> (delete: bool)
    ensures
        delete == file.expired(*cutoff),
{
    if !is_log_file(file.name.as_str()) {
        return false;
    }
    match &file.modified {
        Some(modified) => modified.is_before(cutoff),
        None => false,
    }
}

/// The indices of the files that a retention sweep at `now` deletes, in
/// order.
pub fn select_expired(files: &Vec<LogFile>, now: &Timestamp, retention_days: u32) -> (doomed: Vec<
    usize,
>)
    ensures
        forall|i: int| 0 <= i < doomed@.len() ==> 0 <= #[trigger] doomed@[i] < files@.len(),
        forall|i: int, j: int| 0 <= i < j < doomed@.len() ==> doomed@[i] < doomed@[j],
        forall|k: int|
            0 <= k < files@.len() ==> (doomed@.contains(k as usize) <==> exists|cutoff: Timestamp|
                cutoff.total_nanos() == cutoff_nanos(*now, retention_days) && (
                #[trigger] files@[k]).expired(cutoff)),
{
    let cutoff = retention_cutoff(now, retention_days);
    let mut doomed: Vec<usize> = Vec::new();
    let mut k: usize = 0;
    while k < files.len()
        invariant
            k <= files.len(),
            cutoff.total_nanos() == cutoff_nanos(*now, retention_days),
            forall|i: int| 0 <= i < doomed@.len() ==> 0 <= #[trigger] doomed@[i] < k,
            forall|i: int, j: int| 0 <= i < j < doomed@.len() ==> doomed@[i] < doomed@[j],
            forall|m: int|
                0 <= m < k ==> (doomed@.contains(m as usize) <==> (#[trigger] files@[m]).expired(
                    cutoff,
                )),
        decreases files.len() - k,
    {
        let ghost before = doomed@;
        if should_delete(&files[k], &cutoff) {
            doomed.push(k);
            proof {
                assert(doomed@[before.len() as int] == k);
                assert forall|m: int| 0 <= m < k implies (doomed@.contains(m as usize) <==> (
                #[trigger] files@[m]).expired(cutoff)) by {
                    if before.contains(m as usize) {
                        let i = choose|i: int| 0 <= i < before.len() && before[i] == m as usize;
                        assert(doomed@[i] == m as usize);
                    }
                    if doomed@.contains(m as usize) {
                        let i = choose|i: int| 0 <= i < doomed@.len() && doomed@[i] == m as usize;
                        assert(i < before.len());
                        assert(before[i] == m as usize);
                    }
                }
            }
        } else {
            proof {
                if doomed@.contains(k) {
                    let i = choose|i: int| 0 <= i < doomed@.len() && doomed@[i] == k;
                    assert(doomed@[i] < k);
                }
            }
        }
        k += 1;
    }
    proof {
        assert forall|m: int| 0 <= m < files@.len() implies (doomed@.contains(m as usize)
            <==> exists|c: Timestamp|
            c.total_nanos() == cutoff_nanos(*now, retention_days) && (#[trigger] files@[m]).expired(
                c,
            )) by {
            if (files@[m]).expired(cutoff) {
                assert(cutoff.total_nanos() == cutoff_nanos(*now, retention_days));
            }
        }
    }
    doomed
}

} // verus!
