//! The supervisor: the one authority over which entries have a live process.
//!
//! The supervisor decides; it performs no input or output of its own beyond
//! looking for the tunnel binary. Every operation that needs outside work is
//! split where that work begins: the first part checks the request and says
//! what is to be done, the caller does it, and the second part takes what
//! came of it.

use crate::backend::process::{
    cancel_token, child_token, new_token, parse_cli_args, share_token, split_args, ProcessInstance,
    SpawnError,
};
use crate::backend::types::{
    path_exists, Config, ConfigError, EntryError, ProcessId, TunnelEntry, TunnelId,
    TunnelRuntimeState,
};
use crate::errors;
use crate::text::texts;
use std::collections::HashMap;
use tokio_util::sync::CancellationToken;
use vstd::prelude::*;
use vstd::std_specs::iter::IteratorSpec;
use vstd::string::*;

verus! {

broadcast use vstd::std_specs::hash::group_hash_axioms;

/// How long a stopped process is waited for, in seconds, before the caller goes
/// on without it.
pub const STOP_TIMEOUT_SECS: u64 = 5;

/// Which change of the configuration was refused.
#[derive(Debug, Clone, Copy, PartialEq, Eq, Structural)]
pub enum Change {
    Add,
    Edit,
}

/// Why the supervisor refuses an operation.
#[derive(Debug)]
pub enum BackendError {
    /// No entry carries the identifier.
    NotFound { id: TunnelId },
    /// The entry handed in breaks a rule.
    Validation { cause: EntryError },
    /// The configuration would not be valid after the change.
    ConfigInvalid { change: Change, fault: ConfigError },
    /// The entry named `tag` has a running process.
    AlreadyRunning { tag: String },
    /// The entry named `tag` is being started.
    Transitional { tag: String },
    /// The entry cannot be edited while its process runs.
    CannotEditRunning,
    /// The entry has no live process.
    NotRunning,
    /// The entry's process has no process id.
    AlreadyStopping,
    /// Nothing exists at the path of the tunnel binary.
    BinaryUnavailable { path: String },
    /// The process of the entry named `tag` could not be started.
    StartFailed { tag: String, failure: SpawnError },
    /// A start was completed that had not been begun.
    NoPendingStart,
}

impl BackendError {
    /// The message shown for the error.
    pub open spec fn text(self) -> Seq<char> {
        match self {
            BackendError::NotFound { id } => "Tunnel with ID "@ + id.debug_text() + " not found"@,
            BackendError::Validation { cause } => "Failed to validate tunnel entry: "@
                + "tunnel entry"@,
            BackendError::ConfigInvalid { change, fault } => match change {
                Change::Add => "Configuration validation failed after adding tunnel"@,
                Change::Edit => "Configuration validation failed after editing tunnel"@,
            },
            BackendError::AlreadyRunning { tag } => "Tunnel '"@ + tag@
                + "' is already running. Stop it before starting again."@,
            BackendError::Transitional { tag } => "Tunnel '"@ + tag@
                + "' is currently starting or stopping. Please wait."@,
            BackendError::CannotEditRunning => errors::tunnel::CANNOT_EDIT_RUNNING@,
            BackendError::NotRunning => errors::tunnel::NOT_RUNNING@,
            BackendError::AlreadyStopping => errors::tunnel::ALREADY_STOPPING@,
            BackendError::BinaryUnavailable { path } => "wstunnel binary not found at path: "@
                + path@
                + ". Please check the binary path configuration or use --wstunnel-path flag."@,
            BackendError::StartFailed { tag, failure } => "Failed to start tunnel '"@ + tag@ + "'"@,
            BackendError::NoPendingStart => errors::process::FAILED_TO_PROCESS_PID@,
        }
    }

    /// The message shown for the error.
    pub fn message(&self) -> (msg: String)
        ensures
            msg@ == self.text(),
    {
        match self {
            BackendError::NotFound { id } => {
                let name = id.to_debug_text();
                errors::tunnel::not_found(name.as_str())
            },
            BackendError::Validation { cause } => errors::tunnel::validation::failed(
                "tunnel entry",
            ),
            BackendError::ConfigInvalid { change, fault } => match change {
                Change::Add => errors::config::validation_failed_after_add(),
                Change::Edit => errors::config::validation_failed_after_edit(),
            },
            BackendError::AlreadyRunning { tag } => errors::tunnel::already_running(tag.as_str()),
            BackendError::Transitional { tag } => errors::tunnel::transitional_state(
                tag.as_str(),
            ),
            BackendError::CannotEditRunning => String::from_str(
                errors::tunnel::CANNOT_EDIT_RUNNING,
            ),
            BackendError::NotRunning => String::from_str(errors::tunnel::NOT_RUNNING),
            BackendError::AlreadyStopping => String::from_str(errors::tunnel::ALREADY_STOPPING),
            BackendError::BinaryUnavailable { path } => errors::binary::not_found(path.as_str()),
            BackendError::StartFailed { tag, failure } => errors::tunnel::failed_to_start(
                tag.as_str(),
            ),
            BackendError::NoPendingStart => String::from_str(
                errors::process::FAILED_TO_PROCESS_PID,
            ),
        }
    }
}

/// What the caller is to do to start a process.
#[derive(Debug)]
pub struct StartRequest {
    /// The entry to start.
    pub tunnel_id: TunnelId,
    /// The entry's tag, for the name of the log file.
    pub tunnel_tag: String,
    /// The binary to run.
    pub binary_path: String,
    /// The arguments to run it with.
    pub args: Vec<String>,
    /// The directory for the log file.
    pub log_directory: String,
    /// The signal that stops the monitor of the process.
    pub cancellation_token: CancellationToken,
}

/// What came of the attempt to start a process.
#[derive(Debug)]
pub enum SpawnOutcome {
    /// The process runs as `pid` and logs to `log_path`.
    Spawned { pid: ProcessId, log_path: String },
    /// The process could not be started.
    Failed { cause: SpawnError },
}

/// What the caller is to do to stop a process: signal it to end, wait for it
/// no longer than the timeout, and wait for its monitor to end.
#[derive(Debug)]
pub struct StopRequest {
    /// The entry whose process is stopped.
    pub tunnel_id: TunnelId,
    /// The process to stop.
    pub pid: ProcessId,
    /// How long to wait for the process, in seconds.
    pub timeout_secs: u64,
}

/// The log files to sweep.
#[derive(Debug)]
pub struct SweepRequest {
    /// The directory that holds them.
    pub log_directory: String,
    /// After how many days a log file is deleted.
    pub retention_days: u32,
}

/// The sweep of old log files that `config` asks for, if it asks for one.
pub fn sweep_request(config: &Config) -> (sweep: Option<SweepRequest>)
    ensures
        match sweep {
            Some(request) => config.global.log_retention_days == Some(request.retention_days)
                && request.log_directory == config.global.log_directory,
            None => config.global.log_retention_days is None,
        },
{
    match config.global.log_retention_days {
        Some(retention_days) => Some(
            SweepRequest { log_directory: config.global.log_directory.clone(), retention_days },
        ),
        None => None,
    }
}

/// What is to be done to delete an entry.
#[derive(Debug)]
pub struct Deletion {
    /// The process to end, where the entry was running.
    pub stop: Option<StopRequest>,
    /// The configuration to persist, without the entry; or why there is none.
    pub config: Result<Config, BackendError>,
}

/// The entry with identifier `id` stands at index `i`, and none before it
/// carries that identifier.
pub open spec fn first_at(tunnels: Seq<TunnelEntry>, id: TunnelId, i: int) -> bool {
    &&& 0 <= i < tunnels.len()
    &&& tunnels[i].id == id
    &&& forall|j: int| 0 <= j < i ==> (#[trigger] tunnels[j]).id != id
}

/// No entry carries the identifier `id`.
pub open spec fn absent(tunnels: Seq<TunnelEntry>, id: TunnelId) -> bool {
    forall|j: int| 0 <= j < tunnels.len() ==> (#[trigger] tunnels[j]).id != id
}

/// The index of the first entry with identifier `id`.
pub fn find_position(tunnels: &Vec<TunnelEntry>, id: TunnelId) -> (found: Option<usize>)
    ensures
        match found {
            Some(i) => first_at(tunnels@, id, i as int),
            None => absent(tunnels@, id),
        },
{
    let mut i: usize = 0;
    while i < tunnels.len()
        invariant
            i <= tunnels.len(),
            forall|j: int| 0 <= j < i ==> (#[trigger] tunnels@[j]).id != id,
        decreases tunnels.len() - i,
    {
        if tunnels[i].id == id {
            return Some(i);
        }
        i += 1;
    }
    None
}

/// The entry `entry` as it is handed to a caller, with what is known of its
/// process.
pub open spec fn with_status(entry: TunnelEntry, status: TunnelRuntimeState) -> TunnelEntry {
    TunnelEntry { runtime_state: Some(status), ..entry }
}

/// The supervisor's state: the configuration in force, the live processes by
/// entry, and where each entry last logged.
#[derive(Debug)]
pub struct BackendState {
    config: Config,
    processes: HashMap<u128, ProcessInstance>,
    last_known_log_paths: HashMap<u128, String>,
    wstunnel_binary_path: String,
    cancellation_token: CancellationToken,
}

impl BackendState {
    /// The configuration in force.
    pub closed spec fn config(&self) -> Config {
        self.config
    }

    /// The live processes, by the identifier of their entry.
    pub closed spec fn live(&self) -> Map<u128, ProcessInstance> {
        self.processes@
    }

    /// Where each entry last logged, by identifier.
    pub closed spec fn log_paths(&self) -> Map<u128, String> {
        self.last_known_log_paths@
    }

    /// The tunnel binary to use where the configuration names none.
    pub closed spec fn default_binary(&self) -> String {
        self.wstunnel_binary_path
    }

    /// The signal from which the signal of every process is derived.
    pub closed spec fn root_token(&self) -> CancellationToken {
        self.cancellation_token
    }

    /// The state is sound: the configuration is well formed, and every live
    /// process is filed under the entry it belongs to.
    pub open spec fn wf(&self) -> bool {
        &&& self.config().well_formed()
        &&& forall|k: u128| #[trigger]
            self.live().contains_key(k) ==> self.live()[k].tunnel_id.0 == k
    }

    /// The entry has a process with a process id.
    pub open spec fn is_running(&self, id: TunnelId) -> bool {
        self.live().contains_key(id.0) && self.live()[id.0].pid is Some
    }

    /// The entry has a process record without a process id: its start is
    /// under way.
    pub open spec fn is_starting(&self, id: TunnelId) -> bool {
        self.live().contains_key(id.0) && self.live()[id.0].pid is None
    }

    /// The tunnel binary in force: the one the configuration names, else the
    /// supervisor's own.
    pub open spec fn binary_in_force(&self) -> String {
        match self.config().global.wstunnel_binary_path {
            Some(path) => path,
            None => self.default_binary(),
        }
    }

    /// What is known of the process of entry `id`.
    pub open spec fn status_of(&self, id: TunnelId) -> TunnelRuntimeState {
        if self.live().contains_key(id.0) {
            let process = self.live()[id.0];
            match process.pid {
                Some(pid) => TunnelRuntimeState::Running {
                    pid,
                    started_at: process.started_at,
                    log_path: process.log_path,
                },
                None => TunnelRuntimeState::Starting,
            }
        } else {
            TunnelRuntimeState::Stopped
        }
    }

    /// Nothing but the live processes and the known log paths may differ
    /// between `self` and `other`.
    pub open spec fn same_settings(&self, other: &BackendState) -> bool {
        &&& self.config() == other.config()
        &&& self.default_binary() == other.default_binary()
        &&& self.root_token() == other.root_token()
    }

    /// A supervisor without live processes. A configuration that is not well
    /// formed is replaced by the default one.
    pub fn new(config: Config, wstunnel_binary_path: String) -> (state: Self)
        ensures
            state.wf(),
            state.live() == Map::<u128, ProcessInstance>::empty(),
            state.log_paths() == Map::<u128, String>::empty(),
            state.default_binary() == wstunnel_binary_path,
            config.well_formed() ==> state.config() == config,
            !config.well_formed() ==> state.config().is_default(),
    {
        let config = match config.validate_given(true) {
            Ok(_) => config,
            Err(_) => Config::default(),
        };
        BackendState {
            config,
            processes: HashMap::new(),
            last_known_log_paths: HashMap::new(),
            wstunnel_binary_path,
            cancellation_token: new_token(),
        }
    }

    /// The configuration in force.
    pub fn get_config(&self) -> (config: &Config)
        ensures
            *config == self.config(),
    {
        &self.config
    }

    /// Checks an entry against the rules for entries.
    pub fn validate_tunnel_entry(&self, entry: &TunnelEntry) -> (result: Result<(), EntryError>)
        ensures
            result is Ok <==> entry.is_valid(),
            match result {
                Ok(_) => entry.fault() is None,
                Err(e) => entry.fault() == Some(e),
            },
    {
        entry.validate()
    }

    /// Whether the entry has a process with a process id.
    pub fn is_tunnel_running(&self, id: TunnelId) -> (running: bool)
        ensures
            running == self.is_running(id),
    {
        match self.processes.get(&id.0) {
            Some(process) => process.pid().is_some(),
            None => false,
        }
    }

    /// What is known of the process of entry `id`.
    pub fn get_tunnel_status(&self, id: TunnelId) -> (status: TunnelRuntimeState)
        ensures
            status == self.status_of(id),
    {
        match self.processes.get(&id.0) {
            Some(process) => match process.pid() {
                Some(pid) => TunnelRuntimeState::Running {
                    pid,
                    started_at: process.started_at,
                    log_path: process.log_path.clone(),
                },
                None => TunnelRuntimeState::Starting,
            },
            None => TunnelRuntimeState::Stopped,
        }
    }

    /// The status of every entry, in declaration order.
    pub fn get_all_statuses(&self) -> (statuses: Vec<(TunnelId, TunnelRuntimeState)>)
        ensures
            statuses@.len() == self.config().tunnels@.len(),
            forall|i: int|
                0 <= i < statuses@.len() ==> #[trigger] statuses@[i] == (
                    self.config().tunnels@[i].id,
                    self.status_of(self.config().tunnels@[i].id),
                ),
    {
        let mut statuses: Vec<(TunnelId, TunnelRuntimeState)> = Vec::new();
        let mut i: usize = 0;
        while i < self.config.tunnels.len()
            invariant
                i <= self.config.tunnels.len(),
                statuses@.len() == i,
                forall|j: int|
                    0 <= j < i ==> #[trigger] statuses@[j] == (
                        self.config().tunnels@[j].id,
                        self.status_of(self.config().tunnels@[j].id),
                    ),
            decreases self.config.tunnels.len() - i,
        {
            let id = self.config.tunnels[i].id;
            statuses.push((id, self.get_tunnel_status(id)));
            i += 1;
        }
        statuses
    }

    /// Where the entry logs: the log of its running process, else the log it
    /// last wrote, else nothing.
    pub open spec fn log_path_of(&self, id: TunnelId) -> Option<String> {
        if self.is_running(id) {
            Some(self.live()[id.0].log_path)
        } else if self.log_paths().contains_key(id.0) {
            Some(self.log_paths()[id.0])
        } else {
            None
        }
    }

    /// Where the entry logs.
    pub fn get_log_path(&self, id: TunnelId) -> (path: Option<String>)
        ensures
            path == self.log_path_of(id),
    {
        if let Some(process) = self.processes.get(&id.0) {
            if process.pid().is_some() {
                return Some(process.log_path.clone());
            }
        }
        match self.last_known_log_paths.get(&id.0) {
            Some(path) => Some(path.clone()),
            None => None,
        }
    }

    /// The entries as they are handed to a caller: each with what is known
    /// of its process.
    pub open spec fn listing(&self) -> Seq<TunnelEntry> {
        Seq::new(
            self.config().tunnels@.len(),
            |i: int| with_status(self.config().tunnels@[i], self.status_of(self.config().tunnels@[i].id)),
        )
    }

    /// The tunnel binary in force.
    pub fn binary_path(&self) -> (path: String)
        ensures
            path == self.binary_in_force(),
    {
        match &self.config.global.wstunnel_binary_path {
            Some(path) => path.clone(),
            None => self.wstunnel_binary_path.clone(),
        }
    }

    /// The sweep of old log files to make, where the configuration asks for
    /// one.
    pub fn cleanup_old_logs_if_configured(&self) -> (sweep: Option<SweepRequest>)
        ensures
            match sweep {
                Some(request) => self.config().global.log_retention_days == Some(
                    request.retention_days,
                ) && request.log_directory == self.config().global.log_directory,
                None => self.config().global.log_retention_days is None,
            },
    {
        sweep_request(&self.config)
    }
}

/// Some entry carries the identifier `id`.
pub open spec fn present(tunnels: Seq<TunnelEntry>, id: TunnelId) -> bool {
    exists|i: int| first_at(tunnels, id, i)
}

/// The index of the first entry with identifier `id`.
pub open spec fn position_of(tunnels: Seq<TunnelEntry>, id: TunnelId) -> int {
    choose|i: int| first_at(tunnels, id, i)
}

/// The first entry with identifier `id`.
pub open spec fn entry_of(tunnels: Seq<TunnelEntry>, id: TunnelId) -> TunnelEntry {
    tunnels[position_of(tunnels, id)]
}

/// There is one first entry with a given identifier at most.
pub proof fn lemma_first_at_unique(tunnels: Seq<TunnelEntry>, id: TunnelId, i: int)
    requires
        first_at(tunnels, id, i),
    ensures
        present(tunnels, id),
        !absent(tunnels, id),
        position_of(tunnels, id) == i,
{
    let j = position_of(tunnels, id);
    assert(first_at(tunnels, id, j));
    if j < i {
        assert(tunnels[j].id != id);
    }
    if i < j {
        assert(tunnels[i].id != id);
    }
}

/// What the beginning of a start owes: the state after it and its result,
/// for the state before it and for whether the tunnel binary is on disk.
pub open spec fn begin_start_post(
    pre: BackendState,
    post: BackendState,
    id: TunnelId,
    binary_present: bool,
    result: Result<StartRequest, BackendError>,
) -> bool {
    let tunnels = pre.config().tunnels@;
    &&& post.same_settings(&pre)
    &&& post.log_paths() == pre.log_paths()
    &&& match result {
        Ok(request) => {
            &&& present(tunnels, id)
            &&& !pre.live().contains_key(id.0)
            &&& binary_present
            &&& request.tunnel_id == id
            &&& request.tunnel_tag == entry_of(tunnels, id).tag
            &&& texts(request.args@) == split_args(entry_of(tunnels, id).cli_args@)
            &&& request.binary_path == pre.binary_in_force()
            &&& request.log_directory == pre.config().global.log_directory
            &&& post.is_starting(id)
            &&& post.live()[id.0].tunnel_id == id
            &&& post.live()[id.0].cancellation_token == request.cancellation_token
            &&& post.live() == pre.live().insert(id.0, post.live()[id.0])
        },
        Err(e) => post.live() == pre.live() && match e {
            BackendError::NotFound { id: missing } => missing == id && absent(tunnels, id),
            BackendError::AlreadyRunning { tag } => present(tunnels, id) && pre.is_running(id)
                && tag == entry_of(tunnels, id).tag,
            BackendError::Transitional { tag } => present(tunnels, id) && pre.is_starting(id)
                && tag == entry_of(tunnels, id).tag,
            BackendError::BinaryUnavailable { path } => present(tunnels, id)
                && !pre.live().contains_key(id.0) && !binary_present && path
                == pre.binary_in_force(),
            _ => false,
        },
    }
}

/// What `complete_start` owes.
pub open spec fn complete_start_post(
    pre: BackendState,
    post: BackendState,
    request: StartRequest,
    outcome: SpawnOutcome,
    result: Result<ProcessId, BackendError>,
) -> bool {
    let id = request.tunnel_id;
    &&& post.same_settings(&pre)
    &&& if !pre.is_starting(id) {
        &&& result == Err::<ProcessId, BackendError>(BackendError::NoPendingStart)
        &&& post.live() == pre.live()
        &&& post.log_paths() == pre.log_paths()
    } else {
        match outcome {
            SpawnOutcome::Spawned { pid, log_path } => {
                &&& result == Ok::<ProcessId, BackendError>(pid)
                &&& post.live().contains_key(id.0)
                &&& post.live() == pre.live().insert(id.0, post.live()[id.0])
                &&& post.live()[id.0].tunnel_id == id
                &&& post.live()[id.0].pid == Some(pid)
                &&& post.live()[id.0].log_path == log_path
                &&& post.live()[id.0].cancellation_token == pre.live()[id.0].cancellation_token
                &&& post.log_paths() == pre.log_paths().insert(id.0, log_path)
            },
            SpawnOutcome::Failed { cause } => {
                &&& result == Err::<ProcessId, BackendError>(
                    BackendError::StartFailed { tag: request.tunnel_tag, failure: cause },
                )
                &&& post.live() == pre.live().remove(id.0)
                &&& post.log_paths() == pre.log_paths()
            },
        }
    }
}

/// What `stop_tunnel` owes.
pub open spec fn stop_post(
    pre: BackendState,
    post: BackendState,
    id: TunnelId,
    result: Result<StopRequest, BackendError>,
) -> bool {
    &&& post.same_settings(&pre)
    &&& match result {
        Ok(request) => {
            &&& pre.is_running(id)
            &&& request.tunnel_id == id
            &&& Some(request.pid) == pre.live()[id.0].pid
            &&& request.timeout_secs == STOP_TIMEOUT_SECS
            &&& post.live() == pre.live().remove(id.0)
            &&& post.log_paths() == pre.log_paths().insert(id.0, pre.live()[id.0].log_path)
        },
        Err(e) => {
            &&& post.live() == pre.live()
            &&& post.log_paths() == pre.log_paths()
            &&& match e {
                BackendError::NotRunning => !pre.live().contains_key(id.0),
                BackendError::AlreadyStopping => pre.is_starting(id),
                _ => false,
            }
        },
    }
}

/// What was seen of a process when it was asked whether it still lives.
#[derive(Debug)]
pub enum Liveness {
    /// The process has ended, with the exit code `code` where it gave one.
    Exited { code: Option<i32> },
    /// The process lives.
    Alive,
    /// The process could not be asked, for the reason that `error` spells.
    QueryFailed { error: String },
    /// Nothing is held by which the process could be asked.
    NoHandle,
}

/// Whether a process counts as dead for what was seen of it: it does unless
/// it was seen alive.
pub fn counts_as_dead(seen: &Liveness) -> (dead: bool)
    ensures
        dead == !(seen is Alive),
{
    match seen {
        Liveness::Alive => false,
        _ => true,
    }
}

/// The entries among `seen` whose process counts as dead, in order.
pub open spec fn dead_among(seen: Seq<(TunnelId, Liveness)>) -> Seq<TunnelId>
    decreases seen.len(),
{
    if seen.len() == 0 {
        Seq::empty()
    } else if seen.last().1 is Alive {
        dead_among(seen.drop_last())
    } else {
        dead_among(seen.drop_last()).push(seen.last().0)
    }
}

/// The entries whose process counts as dead, in the order in which they were
/// looked at; they are what a sweep is told.
pub fn exited_among(seen: &Vec<(TunnelId, Liveness)>) -> (exited: Vec<TunnelId>)
    ensures
        exited@ == dead_among(seen@),
{
    let mut exited: Vec<TunnelId> = Vec::new();
    let mut i: usize = 0;
    while i < seen.len()
        invariant
            i <= seen.len(),
            exited@ == dead_among(seen@.take(i as int)),
        decreases seen.len() - i,
    {
        proof {
            assert(seen@.take(i + 1).drop_last() =~= seen@.take(i as int));
        }
        if counts_as_dead(&seen[i].1) {
            exited.push(seen[i].0);
        }
        i += 1;
    }
    proof {
        assert(seen@.take(seen.len() as int) =~= seen@);
    }
    exited
}

/// The entries among `exited` whose process record the sweep removes: those
/// that have one, with or without a process id.
pub open spec fn reaped(pre: BackendState, exited: Seq<TunnelId>) -> Set<u128> {
    Set::new(
        |k: u128|
            pre.live().contains_key(k) && exists|i: int|
                0 <= i < exited.len() && (#[trigger] exited[i]).0 == k,
    )
}

/// The entries whose process the sweep removes, in the order in which
/// `exited` names them first.
pub open spec fn reaped_in_order(pre: BackendState, exited: Seq<TunnelId>) -> Seq<TunnelId>
    decreases exited.len(),
{
    if exited.len() == 0 {
        Seq::empty()
    } else {
        let before = reaped_in_order(pre, exited.drop_last());
        if pre.live().contains_key(exited.last().0) && !before.contains(exited.last()) {
            before.push(exited.last())
        } else {
            before
        }
    }
}

/// The entries among `exited` whose process the sweep removes after it ran:
/// their record has a process id, and so a log.
pub open spec fn reaped_with_log(pre: BackendState, exited: Seq<TunnelId>) -> Set<u128> {
    Set::new(|k: u128| reaped(pre, exited).contains(k) && pre.is_running(TunnelId(k)))
}

/// What the sweep of dead processes owes: every process record of `exited`
/// is gone from the live map and no other, the records that stay are as they
/// were, and where each process that went logged is remembered. A record
/// whose start was under way has no log yet: what was remembered of its
/// entry stays.
pub open spec fn sweep_post(pre: BackendState, post: BackendState, exited: Seq<TunnelId>) -> bool {
    let gone = reaped(pre, exited);
    let logged = reaped_with_log(pre, exited);
    &&& post.same_settings(&pre)
    &&& post.live() == pre.live().remove_keys(gone)
    &&& post.log_paths().dom() == pre.log_paths().dom().union(logged)
    &&& forall|k: u128| #[trigger]
        post.log_paths().contains_key(k) ==> post.log_paths()[k] == if logged.contains(k) {
            pre.live()[k].log_path
        } else {
            pre.log_paths()[k]
        }
}

/// One of `requests` asks to stop the process of the entry with key `k`.
pub open spec fn asks_to_stop(requests: Seq<StopRequest>, k: u128) -> bool {
    exists|r: int| 0 <= r < requests.len() && (#[trigger] requests[r]).tunnel_id.0 == k
}

/// One of the first `upto` items of `running` is the entry with key `k`.
pub open spec fn lists(running: Seq<(TunnelId, ProcessId)>, upto: int, k: u128) -> bool {
    exists|j: int| 0 <= j < upto && j < running.len() && (#[trigger] running[j]).0.0 == k
}

/// One of the first `upto` keys of `keys` is `k`.
pub open spec fn holds_key(keys: Seq<&u128>, upto: int, k: u128) -> bool {
    exists|j: int| 0 <= j < upto && j < keys.len() && *(#[trigger] keys[j]) == k
}

/// What `shutdown` owes: every process with a process id is gone from the
/// live map and has a request to stop it, and where it logged is remembered.
pub open spec fn shutdown_post(pre: BackendState, post: BackendState, requests: Seq<StopRequest>) -> bool {
    &&& post.same_settings(&pre)
    &&& forall|k: u128| #[trigger]
        post.live().contains_key(k) <==> pre.live().contains_key(k) && pre.live()[k].pid is None
    &&& forall|k: u128| #[trigger] post.live().contains_key(k) ==> post.live()[k] == pre.live()[k]
    &&& forall|k: u128| #[trigger]
        post.log_paths().contains_key(k) <==> pre.log_paths().contains_key(k) || pre.is_running(
            TunnelId(k),
        )
    &&& forall|k: u128| #[trigger]
        post.log_paths().contains_key(k) ==> post.log_paths()[k] == if pre.is_running(
            TunnelId(k),
        ) {
            pre.live()[k].log_path
        } else {
            pre.log_paths()[k]
        }
    &&& forall|i: int|
        0 <= i < requests.len() ==> pre.is_running((#[trigger] requests[i]).tunnel_id) && Some(
            requests[i].pid,
        ) == pre.live()[requests[i].tunnel_id.0].pid && requests[i].timeout_secs
            == STOP_TIMEOUT_SECS
    &&& forall|k: u128| pre.is_running(TunnelId(k)) ==> #[trigger] asks_to_stop(requests, k)
    &&& forall|i: int, j: int|
        0 <= i < j < requests.len() ==> (#[trigger] requests[i]).tunnel_id != (
        #[trigger] requests[j]).tunnel_id
}

/// The identifiers of the entries flagged for autostart, in declaration
/// order.
pub open spec fn autostart_of(tunnels: Seq<TunnelEntry>) -> Seq<TunnelId>
    decreases tunnels.len(),
{
    if tunnels.len() == 0 {
        Seq::empty()
    } else if tunnels.last().autostart {
        autostart_of(tunnels.drop_last()).push(tunnels.last().id)
    } else {
        autostart_of(tunnels.drop_last())
    }
}

/// One of the first `upto` items of `ids` is the identifier with key `k`.
pub open spec fn names_key(ids: Seq<TunnelId>, upto: int, k: u128) -> bool {
    exists|j: int| 0 <= j < upto && j < ids.len() && (#[trigger] ids[j]).0 == k
}

/// Where no two entries share an identifier, the entries flagged for
/// autostart are named once each, and each of them is an entry.
pub proof fn lemma_autostart_ids(tunnels: Seq<TunnelEntry>)
    requires
        crate::backend::types::ids_unique(tunnels),
    ensures
        forall|i: int|
            0 <= i < autostart_of(tunnels).len() ==> !absent(
                tunnels,
                #[trigger] autostart_of(tunnels)[i],
            ),
        forall|i: int, j: int|
            0 <= i < j < autostart_of(tunnels).len() ==> #[trigger] autostart_of(tunnels)[i]
                != #[trigger] autostart_of(tunnels)[j],
    decreases tunnels.len(),
{
    if tunnels.len() > 0 {
        let front = tunnels.drop_last();
        let last = tunnels.last();
        assert forall|a: int, b: int| 0 <= a < b < front.len() implies #[trigger] front[a].id
            != #[trigger] front[b].id by {
            assert(tunnels[a].id != tunnels[b].id);
        }
        lemma_autostart_ids(front);
        let ids = autostart_of(front);
        assert forall|i: int| 0 <= i < ids.len() implies !absent(tunnels, #[trigger] ids[i])
            && ids[i] != last.id by {
            assert(!absent(front, ids[i]));
            let j = choose|j: int| 0 <= j < front.len() && (#[trigger] front[j]).id == ids[i];
            assert(tunnels[j].id == ids[i]);
            assert(tunnels[j].id != tunnels[tunnels.len() - 1].id);
        }
        if last.autostart {
            assert(tunnels[tunnels.len() - 1].id == last.id);
            assert forall|i: int| 0 <= i < autostart_of(tunnels).len() implies !absent(
                tunnels,
                #[trigger] autostart_of(tunnels)[i],
            ) by {
                if i < ids.len() {
                    assert(autostart_of(tunnels)[i] == ids[i]);
                }
            }
            assert forall|i: int, j: int|
                0 <= i < j < autostart_of(tunnels).len() implies #[trigger] autostart_of(
                tunnels,
            )[i] != #[trigger] autostart_of(tunnels)[j] by {
                assert(autostart_of(tunnels)[i] == ids[i]);
                if j < ids.len() {
                    assert(autostart_of(tunnels)[j] == ids[j]);
                }
            }
        }
    }
}

/// How many of `results` are successes.
pub open spec fn count_started(results: Seq<(TunnelId, Result<ProcessId, BackendError>)>) -> nat
    decreases results.len(),
{
    if results.len() == 0 {
        0
    } else if results.last().1 is Ok {
        count_started(results.drop_last()) + 1
    } else {
        count_started(results.drop_last())
    }
}

/// How an autostart went.
#[derive(Debug, Clone, Copy, PartialEq, Eq, Structural)]
pub struct AutostartSummary {
    /// How many entries were started.
    pub started: usize,
    /// How many entries could not be started.
    pub failed: usize,
}

/// Counts the successes and failures of an autostart.
pub fn summarize_autostart(results: &Vec<(TunnelId, Result<ProcessId, BackendError>)>) -> (summary:
    AutostartSummary)
    ensures
        summary.started == count_started(results@),
        summary.started + summary.failed == results@.len(),
{
    let mut started: usize = 0;
    let mut failed: usize = 0;
    let mut i: usize = 0;
    while i < results.len()
        invariant
            i <= results.len(),
            started == count_started(results@.take(i as int)),
            started + failed == i,
        decreases results.len() - i,
    {
        proof {
            assert(results@.take(i + 1).drop_last() =~= results@.take(i as int));
        }
        if results[i].1.is_ok() {
            started += 1;
        } else {
            failed += 1;
        }
        i += 1;
    }
    proof {
        assert(results@.take(results.len() as int) =~= results@);
    }
    AutostartSummary { started, failed }
}

impl BackendState {
    /// Begins the start of entry `id`, given whether the tunnel binary is on
    /// disk: checks that the entry exists, that it has no live process and
    /// that the binary is there, records that a start is under way, and says
    /// what is to be spawned.
    pub fn begin_start_given(&mut self, id: TunnelId, binary_present: bool) -> (result: Result<
        StartRequest,
        BackendError,
    >)
        requires
            old(self).wf(),
        ensures
            final(self).wf(),
            begin_start_post(*old(self), *final(self), id, binary_present, result),
    {
        let index = match find_position(&self.config.tunnels, id) {
            Some(index) => index,
            None => {
                return Err(BackendError::NotFound { id });
            },
        };
        proof {
            lemma_first_at_unique(self.config.tunnels@, id, index as int);
        }
        let tunnel = &self.config.tunnels[index];
        if let Some(process) = self.processes.get(&id.0) {
            if process.pid().is_some() {
                return Err(BackendError::AlreadyRunning { tag: tunnel.tag.clone() });
            } else {
                return Err(BackendError::Transitional { tag: tunnel.tag.clone() });
            }
        }
        let binary_path = self.binary_path();
        if !binary_present {
            return Err(BackendError::BinaryUnavailable { path: binary_path });
        }
        let token = child_token(&self.cancellation_token);
        let request = StartRequest {
            tunnel_id: id,
            tunnel_tag: tunnel.tag.clone(),
            binary_path,
            args: parse_cli_args(tunnel.cli_args.as_str()),
            log_directory: self.config.global.log_directory.clone(),
            cancellation_token: share_token(&token),
        };
        self.processes.insert(id.0, ProcessInstance::starting(id, token));
        Ok(request)
    }

    /// Begins the start of entry `id`; the tunnel binary is looked for on
    /// disk.
    pub fn begin_start(&mut self, id: TunnelId) -> (result: Result<StartRequest, BackendError>)
        requires
            old(self).wf(),
        ensures
            final(self).wf(),
            exists|binary_present: bool| #[trigger]
                begin_start_post(*old(self), *final(self), id, binary_present, result),
    {
        let binary_path = self.binary_path();
        let binary_present = path_exists(binary_path.as_str());
        self.begin_start_given(id, binary_present)
    }

    /// Completes a start that `begin_start` began: registers the process
    /// that was spawned, or forgets the start that failed.
    pub fn complete_start(&mut self, request: StartRequest, outcome: SpawnOutcome) -> (result:
        Result<ProcessId, BackendError>)
        requires
            old(self).wf(),
        ensures
            final(self).wf(),
            complete_start_post(*old(self), *final(self), request, outcome, result),
    {
        let id = request.tunnel_id;
        let pending = match self.processes.get(&id.0) {
            Some(process) => process.pid().is_none(),
            None => false,
        };
        if !pending {
            return Err(BackendError::NoPendingStart);
        }
        let record = match self.processes.remove(&id.0) {
            Some(record) => record,
            None => {
                return Err(BackendError::NoPendingStart);
            },
        };
        match outcome {
            SpawnOutcome::Spawned { pid, log_path } => {
                self.last_known_log_paths.insert(id.0, log_path.clone());
                let instance = ProcessInstance::new(
                    id,
                    pid,
                    log_path,
                    record.cancellation_token,
                );
                self.processes.insert(id.0, instance);
                proof {
                    assert(final(self).live() =~= old(self).live().insert(
                        id.0,
                        final(self).live()[id.0],
                    ));
                }
                Ok(pid)
            },
            SpawnOutcome::Failed { cause } => {
                cancel_token(&record.cancellation_token);
                Err(BackendError::StartFailed { tag: request.tunnel_tag, failure: cause })
            },
        }
    }

    /// Stops the process of entry `id`: takes it out of the live map at
    /// once, remembers where it logged, cancels its monitor, and says which
    /// process is to be ended.
    pub fn stop_tunnel(&mut self, id: TunnelId) -> (result: Result<StopRequest, BackendError>)
        requires
            old(self).wf(),
        ensures
            final(self).wf(),
            stop_post(*old(self), *final(self), id, result),
    {
        let pid = match self.processes.get(&id.0) {
            Some(process) => match process.pid() {
                Some(pid) => pid,
                None => {
                    return Err(BackendError::AlreadyStopping);
                },
            },
            None => {
                return Err(BackendError::NotRunning);
            },
        };
        let process = match self.processes.remove(&id.0) {
            Some(process) => process,
            None => {
                return Err(BackendError::NotRunning);
            },
        };
        self.last_known_log_paths.insert(id.0, process.log_path);
        cancel_token(&process.cancellation_token);
        Ok(StopRequest { tunnel_id: id, pid, timeout_secs: STOP_TIMEOUT_SECS })
    }
}

/// The configuration `candidate` is `base` with other entries.
pub open spec fn same_but_tunnels(candidate: Config, base: Config) -> bool {
    candidate.version == base.version && candidate.global == base.global
}

/// The tunnel binary that `config` names, if it names one, is on disk.
pub open spec fn binary_ok(config: Config, binary_present: bool) -> bool {
    config.global.wstunnel_binary_path is Some ==> binary_present
}

/// What is owed for a configuration that is to take `entry` at its end:
/// the new configuration, or why there is none.
pub open spec fn added_ok(
    base: Config,
    entry: TunnelEntry,
    binary_present: bool,
    result: Result<Config, BackendError>,
) -> bool {
    let tunnels = base.tunnels@;
    match result {
        Ok(candidate) => {
            &&& entry.is_valid()
            &&& absent(tunnels, entry.id)
            &&& binary_ok(base, binary_present)
            &&& same_but_tunnels(candidate, base)
            &&& candidate.tunnels@ == tunnels.push(entry)
            &&& candidate.well_formed()
        },
        Err(e) => match e {
            BackendError::Validation { cause } => entry.fault() == Some(cause),
            BackendError::ConfigInvalid { change, fault } => change == Change::Add
                && entry.is_valid() && (!absent(tunnels, entry.id) || !binary_ok(
                base,
                binary_present,
            )) && exists|candidate: Config| #[trigger]
                same_but_tunnels(candidate, base) && candidate.tunnels@ == tunnels.push(entry)
                    && candidate.fault(binary_present) == Some(fault),
            _ => false,
        },
    }
}

/// What is owed for a configuration in which `entry` is to replace the entry
/// `id`, whose process runs or not as `running` tells. An entry whose process
/// runs is not replaced, whatever the new entry holds: that refusal comes
/// before every other.
pub open spec fn replaced_ok(
    base: Config,
    running: bool,
    id: TunnelId,
    entry: TunnelEntry,
    binary_present: bool,
    result: Result<Config, BackendError>,
) -> bool {
    let tunnels = base.tunnels@;
    match result {
        Ok(candidate) => {
            &&& entry.is_valid()
            &&& !running
            &&& present(tunnels, id)
            &&& entry.id == id || absent(tunnels, entry.id)
            &&& binary_ok(base, binary_present)
            &&& same_but_tunnels(candidate, base)
            &&& candidate.tunnels@ == tunnels.update(position_of(tunnels, id), entry)
            &&& candidate.well_formed()
        },
        Err(e) => match e {
            BackendError::CannotEditRunning => running,
            BackendError::Validation { cause } => !running && entry.fault() == Some(cause),
            BackendError::NotFound { id: missing } => missing == id && entry.is_valid()
                && !running && absent(tunnels, id),
            BackendError::ConfigInvalid { change, fault } => change == Change::Edit
                && entry.is_valid() && !running && present(tunnels, id) && ((entry.id != id
                && !absent(tunnels, entry.id)) || !binary_ok(base, binary_present))
                && exists|candidate: Config| #[trigger]
                same_but_tunnels(candidate, base) && candidate.tunnels@ == tunnels.update(
                    position_of(tunnels, id),
                    entry,
                ) && candidate.fault(binary_present) == Some(fault),
            _ => false,
        },
    }
}

/// What is owed for a configuration that is to lose the entry `id`.
pub open spec fn removed_ok(base: Config, id: TunnelId, result: Result<Config, BackendError>) -> bool {
    let tunnels = base.tunnels@;
    match result {
        Ok(candidate) => {
            &&& present(tunnels, id)
            &&& same_but_tunnels(candidate, base)
            &&& candidate.tunnels@ == tunnels.remove(position_of(tunnels, id))
            &&& candidate.well_formed()
        },
        Err(e) => match e {
            BackendError::NotFound { id: missing } => missing == id && absent(tunnels, id),
            _ => false,
        },
    }
}

/// What `add_tunnel` owes, given whether the configured binary is on disk.
pub open spec fn add_post(
    pre: BackendState,
    entry: TunnelEntry,
    binary_present: bool,
    result: Result<Config, BackendError>,
) -> bool {
    added_ok(pre.config(), entry, binary_present, result)
}

/// What `edit_tunnel` owes, given whether the configured binary is on disk.
pub open spec fn edit_post(
    pre: BackendState,
    id: TunnelId,
    entry: TunnelEntry,
    binary_present: bool,
    result: Result<Config, BackendError>,
) -> bool {
    replaced_ok(pre.config(), pre.is_running(id), id, entry, binary_present, result)
}

/// What `delete_tunnel` owes: the process record of the entry, with or
/// without a process id, is out of the live map whether or not the entry is
/// known; where the process ran, where it logged is remembered and a request
/// to end it is given; and the configuration without the entry is given
/// where the entry is known.
pub open spec fn delete_post(pre: BackendState, post: BackendState, id: TunnelId, deletion: Deletion) -> bool {
    &&& post.same_settings(&pre)
    &&& post.live() == pre.live().remove(id.0)
    &&& post.log_paths() == if pre.is_running(id) {
        pre.log_paths().insert(id.0, pre.live()[id.0].log_path)
    } else {
        pre.log_paths()
    }
    &&& removed_ok(pre.config(), id, deletion.config)
    &&& deletion.stop is Some <==> pre.is_running(id)
    &&& deletion.stop matches Some(request) ==> request.tunnel_id == id && Some(request.pid)
        == pre.live()[id.0].pid && request.timeout_secs == STOP_TIMEOUT_SECS
}

/// A well-formed configuration stays well formed when a valid entry with a
/// new identifier is added at its end.
pub proof fn lemma_push_keeps_well_formed(base: Config, candidate: Config, entry: TunnelEntry)
    requires
        base.well_formed(),
        same_but_tunnels(candidate, base),
        candidate.tunnels@ == base.tunnels@.push(entry),
        entry.is_valid(),
    ensures
        candidate.well_formed() <==> absent(base.tunnels@, entry.id),
{
    let old_tunnels = base.tunnels@;
    let new_tunnels = candidate.tunnels@;
    let n = old_tunnels.len() as int;
    if absent(old_tunnels, entry.id) {
        assert forall|i: int, j: int| 0 <= i < j < new_tunnels.len() implies #[trigger] new_tunnels[i].id
            != #[trigger] new_tunnels[j].id by {
            if j < n {
                assert(old_tunnels[i].id != old_tunnels[j].id);
            } else {
                assert(old_tunnels[i].id != entry.id);
            }
        }
        assert forall|i: int| 0 <= i < new_tunnels.len() implies (#[trigger] new_tunnels[i]).is_valid() by {
            if i < n {
                assert(old_tunnels[i].is_valid());
            }
        }
    } else {
        let j = choose|j: int| 0 <= j < old_tunnels.len() && (#[trigger] old_tunnels[j]).id == entry.id;
        assert(new_tunnels[j].id == new_tunnels[n].id);
    }
}

/// A well-formed configuration stays well formed when the entry at index `i`
/// is replaced by a valid one, unless the new entry takes the identifier of
/// another entry.
pub proof fn lemma_update_keeps_well_formed(
    base: Config,
    candidate: Config,
    i: int,
    entry: TunnelEntry,
)
    requires
        base.well_formed(),
        same_but_tunnels(candidate, base),
        0 <= i < base.tunnels@.len(),
        candidate.tunnels@ == base.tunnels@.update(i, entry),
        entry.is_valid(),
    ensures
        candidate.well_formed() <==> (entry.id == base.tunnels@[i].id || absent(
            base.tunnels@,
            entry.id,
        )),
{
    let old_tunnels = base.tunnels@;
    let new_tunnels = candidate.tunnels@;
    if entry.id == old_tunnels[i].id || absent(old_tunnels, entry.id) {
        assert forall|a: int, b: int| 0 <= a < b < new_tunnels.len() implies #[trigger] new_tunnels[a].id
            != #[trigger] new_tunnels[b].id by {
            assert(old_tunnels[a].id != old_tunnels[b].id);
            if a == i {
                assert(old_tunnels[b].id != entry.id);
            }
            if b == i {
                assert(old_tunnels[a].id != entry.id);
            }
        }
        assert forall|a: int| 0 <= a < new_tunnels.len() implies (#[trigger] new_tunnels[a]).is_valid() by {
            if a != i {
                assert(old_tunnels[a].is_valid());
            }
        }
    } else {
        let j = choose|j: int| 0 <= j < old_tunnels.len() && (#[trigger] old_tunnels[j]).id == entry.id;
        assert(j != i);
        if j < i {
            assert(new_tunnels[j].id == new_tunnels[i].id);
        } else {
            assert(new_tunnels[i].id == new_tunnels[j].id);
        }
    }
}

/// A well-formed configuration stays well formed when an entry is removed.
pub proof fn lemma_remove_keeps_well_formed(base: Config, candidate: Config, i: int)
    requires
        base.well_formed(),
        same_but_tunnels(candidate, base),
        0 <= i < base.tunnels@.len(),
        candidate.tunnels@ == base.tunnels@.remove(i),
    ensures
        candidate.well_formed(),
{
    let old_tunnels = base.tunnels@;
    let new_tunnels = candidate.tunnels@;
    assert forall|a: int, b: int| 0 <= a < b < new_tunnels.len() implies #[trigger] new_tunnels[a].id
        != #[trigger] new_tunnels[b].id by {
        let a0 = if a < i { a } else { a + 1 };
        let b0 = if b < i { b } else { b + 1 };
        assert(old_tunnels[a0].id != old_tunnels[b0].id);
    }
    assert forall|a: int| 0 <= a < new_tunnels.len() implies (#[trigger] new_tunnels[a]).is_valid() by {
        let a0 = if a < i { a } else { a + 1 };
        assert(old_tunnels[a0].is_valid());
    }
}

/// The configuration `base` with `entry` at its end, checked against the
/// rules and a given answer to whether the configured binary is on disk.
pub fn config_with_added(base: &Config, entry: TunnelEntry, binary_present: bool) -> (result: Result<
    Config,
    BackendError,
>)
    requires
        base.well_formed(),
    ensures
        added_ok(*base, entry, binary_present, result),
{
    match entry.validate() {
        Ok(_) => {},
        Err(cause) => {
            return Err(BackendError::Validation { cause });
        },
    }
    let mut candidate = base.clone();
    candidate.tunnels.push(entry);
    proof {
        lemma_push_keeps_well_formed(*base, candidate, entry);
    }
    match candidate.validate_given(binary_present) {
        Ok(_) => Ok(candidate),
        Err(fault) => {
            proof {
                assert(same_but_tunnels(candidate, *base));
            }
            Err(BackendError::ConfigInvalid { change: Change::Add, fault })
        },
    }
}

/// The configuration `base` with `entry` in the place of entry `id`,
/// checked against the rules and a given answer to whether the configured
/// binary is on disk. An entry whose process runs is not replaced.
pub fn config_with_replaced(
    base: &Config,
    running: bool,
    id: TunnelId,
    entry: TunnelEntry,
    binary_present: bool,
) -> (result: Result<Config, BackendError>)
    requires
        base.well_formed(),
    ensures
        replaced_ok(*base, running, id, entry, binary_present, result),
{
    if running {
        return Err(BackendError::CannotEditRunning);
    }
    match entry.validate() {
        Ok(_) => {},
        Err(cause) => {
            return Err(BackendError::Validation { cause });
        },
    }
    let mut candidate = base.clone();
    let index = match find_position(&candidate.tunnels, id) {
        Some(index) => index,
        None => {
            return Err(BackendError::NotFound { id });
        },
    };
    proof {
        lemma_first_at_unique(base.tunnels@, id, index as int);
    }
    candidate.tunnels.set(index, entry);
    proof {
        lemma_update_keeps_well_formed(*base, candidate, index as int, entry);
    }
    match candidate.validate_given(binary_present) {
        Ok(_) => Ok(candidate),
        Err(fault) => {
            proof {
                assert(same_but_tunnels(candidate, *base));
            }
            Err(BackendError::ConfigInvalid { change: Change::Edit, fault })
        },
    }
}

/// The configuration `base` without the entry `id`.
pub fn config_without(base: &Config, id: TunnelId) -> (result: Result<Config, BackendError>)
    requires
        base.well_formed(),
    ensures
        removed_ok(*base, id, result),
{
    let mut candidate = base.clone();
    let index = match find_position(&candidate.tunnels, id) {
        Some(index) => index,
        None => {
            return Err(BackendError::NotFound { id });
        },
    };
    proof {
        lemma_first_at_unique(base.tunnels@, id, index as int);
    }
    candidate.tunnels.remove(index);
    proof {
        lemma_remove_keeps_well_formed(*base, candidate, index as int);
    }
    Ok(candidate)
}

impl BackendState {
    /// The configuration to persist in order to add `entry`: the one in
    /// force with `entry` at its end. Nothing changes until it is committed.
    pub fn add_tunnel(&self, entry: TunnelEntry) -> (result: Result<Config, BackendError>)
        requires
            self.wf(),
        ensures
            exists|binary_present: bool| #[trigger] add_post(*self, entry, binary_present, result),
            self.config().global.wstunnel_binary_path is None ==> add_post(
                *self,
                entry,
                true,
                result,
            ),
    {
        let binary_present = self.config.global.probe_binary();
        let result = config_with_added(&self.config, entry, binary_present);
        proof {
            assert(add_post(*self, entry, binary_present, result));
        }
        result
    }

    /// The configuration to persist in order to replace entry `id` by
    /// `entry`. An entry cannot be replaced while its process runs. Nothing
    /// changes until the configuration is committed.
    pub fn edit_tunnel(&self, id: TunnelId, entry: TunnelEntry) -> (result: Result<
        Config,
        BackendError,
    >)
        requires
            self.wf(),
        ensures
            exists|binary_present: bool| #[trigger]
                edit_post(*self, id, entry, binary_present, result),
            self.config().global.wstunnel_binary_path is None ==> edit_post(
                *self,
                id,
                entry,
                true,
                result,
            ),
    {
        let running = self.is_tunnel_running(id);
        let binary_present = self.config.global.probe_binary();
        let result = config_with_replaced(&self.config, running, id, entry, binary_present);
        proof {
            assert(edit_post(*self, id, entry, binary_present, result));
        }
        result
    }

    /// Prepares the deletion of entry `id`: stops its process first if it
    /// runs, gives up a start that is under way, then gives the configuration
    /// to persist, without the entry.
    pub fn delete_tunnel(&mut self, id: TunnelId) -> (deletion: Deletion)
        requires
            old(self).wf(),
        ensures
            final(self).wf(),
            delete_post(*old(self), *final(self), id, deletion),
    {
        let stop = if self.is_tunnel_running(id) {
            match self.stop_tunnel(id) {
                Ok(request) => Some(request),
                Err(_) => None,
            }
        } else {
            match self.processes.remove(&id.0) {
                Some(record) => {
                    cancel_token(&record.cancellation_token);
                },
                None => {
                    proof {
                        assert(self.live() =~= old(self).live().remove(id.0));
                    }
                },
            }
            None
        };
        Deletion { stop, config: config_without(&self.config, id) }
    }

    /// Puts `config` in force, once it has been persisted. A configuration
    /// that is not well formed is refused and changes nothing.
    pub fn commit_config(&mut self, config: Config) -> (result: Result<(), ConfigError>)
        requires
            old(self).wf(),
        ensures
            final(self).wf(),
            result is Ok <==> config.well_formed(),
            result matches Err(fault) ==> config.fault(true) == Some(fault),
            final(self).config() == if config.well_formed() {
                config
            } else {
                old(self).config()
            },
            final(self).live() == old(self).live(),
            final(self).log_paths() == old(self).log_paths(),
            final(self).default_binary() == old(self).default_binary(),
            final(self).root_token() == old(self).root_token(),
    {
        match config.validate_given(true) {
            Ok(_) => {
                self.config = config;
                Ok(())
            },
            Err(fault) => Err(fault),
        }
    }

    /// Forgets where entry `id` last logged; for an entry that was deleted.
    pub fn forget_log_path(&mut self, id: TunnelId)
        requires
            old(self).wf(),
        ensures
            final(self).wf(),
            final(self).same_settings(old(self)),
            final(self).live() == old(self).live(),
            final(self).log_paths() == old(self).log_paths().remove(id.0),
    {
        self.last_known_log_paths.remove(&id.0);
    }

    /// The identifiers of the entries to start at startup, in declaration
    /// order.
    pub fn autostart_ids(&self) -> (ids: Vec<TunnelId>)
        ensures
            ids@ == autostart_of(self.config().tunnels@),
    {
        let mut ids: Vec<TunnelId> = Vec::new();
        let mut i: usize = 0;
        while i < self.config.tunnels.len()
            invariant
                i <= self.config.tunnels.len(),
                ids@ == autostart_of(self.config().tunnels@.take(i as int)),
            decreases self.config.tunnels.len() - i,
        {
            proof {
                assert(self.config().tunnels@.take(i + 1).drop_last() =~= self.config().tunnels@.take(
                    i as int,
                ));
            }
            if self.config.tunnels[i].autostart {
                ids.push(self.config.tunnels[i].id);
            }
            i += 1;
        }
        proof {
            assert(self.config().tunnels@.take(self.config.tunnels.len() as int)
                =~= self.config().tunnels@);
        }
        ids
    }

    /// Whether the state is sound. Every state that `new` gave and that only
    /// the methods of the supervisor changed is.
    pub fn is_sound(&self) -> (sound: bool)
        ensures
            sound == self.wf(),
    {
        if self.config.validate_given(true).is_err() {
            return false;
        }
        let ghost all: Seq<&u128> = self.processes.keys().remaining();
        for key in it: self.processes.keys()
            invariant
                it.seq() == all,
                all.unref().to_set() == self.live().dom(),
                self.config().well_formed(),
                forall|j: int|
                    0 <= j < it.index() ==> self.live()[*#[trigger] all[j]].tunnel_id.0 == *all[j],
        {
            proof {
                assert(all.unref()[it.index() as int] == *key);
                assert(all.unref().to_set().contains(*key));
            }
            match self.processes.get(key) {
                Some(process) => {
                    if process.tunnel_id.0 != *key {
                        return false;
                    }
                },
                None => {},
            }
        }
        proof {
            assert forall|k: u128| #[trigger] self.live().contains_key(k) implies self.live()[k].tunnel_id.0
                == k by {
                assert(all.unref().to_set().contains(k));
                let j = choose|j: int| 0 <= j < all.unref().len() && all.unref()[j] == k;
                assert(*all[j] == k);
            }
        }
        true
    }

    /// The processes that have a process id, for the caller to look whether
    /// they still live.
    pub fn running_processes(&self) -> (running: Vec<(TunnelId, ProcessId)>)
        ensures
            forall|i: int|
                0 <= i < running@.len() ==> self.is_running((#[trigger] running@[i]).0)
                    && self.live()[running@[i].0.0].pid == Some(running@[i].1),
            forall|k: u128|
                self.is_running(TunnelId(k)) ==> #[trigger] lists(
                    running@,
                    running@.len() as int,
                    k,
                ),
            forall|i: int, j: int|
                0 <= i < j < running@.len() ==> (#[trigger] running@[i]).0 != (
                #[trigger] running@[j]).0,
    {
        let mut running: Vec<(TunnelId, ProcessId)> = Vec::new();
        let ghost all: Seq<&u128> = self.processes.keys().remaining();
        for key in it: self.processes.keys()
            invariant
                it.seq() == all,
                all.unref().to_set() == self.live().dom(),
                all.no_duplicates(),
                forall|i: int|
                    0 <= i < running@.len() ==> holds_key(
                        all,
                        it.index() as int,
                        (#[trigger] running@[i]).0.0,
                    ),
                forall|i: int, j: int|
                    0 <= i < j < running@.len() ==> (#[trigger] running@[i]).0 != (
                    #[trigger] running@[j]).0,
                forall|i: int|
                    0 <= i < running@.len() ==> self.is_running((#[trigger] running@[i]).0)
                        && self.live()[running@[i].0.0].pid == Some(running@[i].1),
                forall|j: int|
                    0 <= j < it.index() && self.is_running(TunnelId(*all[j])) ==> #[trigger] lists(
                        running@,
                        running@.len() as int,
                        *all[j],
                    ),
        {
            let ghost before = running@;
            proof {
                assert(all.unref()[it.index() as int] == *key);
                assert(all.unref().to_set().contains(*key));
            }
            if let Some(process) = self.processes.get(key) {
                if let Some(pid) = process.pid() {
                    running.push((TunnelId(*key), pid));
                }
            }
            proof {
                let index = it.index() as int;
                assert forall|i: int| 0 <= i < before.len() implies holds_key(
                    all,
                    index + 1,
                    (#[trigger] before[i]).0.0,
                ) && before[i].0.0 != *key by {
                    assert(holds_key(all, index, before[i].0.0));
                    let j = choose|j: int|
                        0 <= j < index && j < all.len() && *(#[trigger] all[j]) == before[i].0.0;
                    assert(all[j] != all[index]);
                }
                assert(*all[index] == *key);
                assert forall|i: int| 0 <= i < running@.len() implies holds_key(
                    all,
                    index + 1,
                    (#[trigger] running@[i]).0.0,
                ) by {
                    if i < before.len() {
                        assert(running@[i] == before[i]);
                    } else {
                        assert(running@[i].0.0 == *all[index]);
                    }
                }
                assert forall|i: int, j: int| 0 <= i < j < running@.len() implies (
                #[trigger] running@[i]).0 != (#[trigger] running@[j]).0 by {
                    assert(running@[i] == before[i]);
                    if j < before.len() {
                        assert(running@[j] == before[j]);
                    } else {
                        assert(running@[j].0.0 == *key);
                    }
                }
                assert forall|j: int|
                    0 <= j < it.index() + 1 && self.is_running(
                        TunnelId(*all[j]),
                    ) implies #[trigger] lists(running@, running@.len() as int, *all[j]) by {
                    if j < it.index() {
                        assert(lists(before, before.len() as int, *all[j]));
                        let i = choose|i: int|
                            0 <= i < before.len() && (#[trigger] before[i]).0.0 == *all[j];
                        assert(running@[i] == before[i]);
                    } else {
                        assert(running@[before.len() as int].0.0 == *key);
                    }
                }
            }
        }
        proof {
            assert forall|k: u128| self.is_running(TunnelId(k)) implies #[trigger] lists(
                running@,
                running@.len() as int,
                k,
            ) by {
                assert(all.unref().to_set().contains(k));
                let j = choose|j: int| 0 <= j < all.unref().len() && all.unref()[j] == k;
                assert(*all[j] == k);
                assert(lists(running@, running@.len() as int, *all[j]));
            }
        }
        running
    }
}

impl BackendState {
    /// Sweeps the live map: the process records of `exited`, which the caller
    /// saw dead, are taken out of it, where they logged is remembered, and
    /// their monitors are cancelled. Gives the entries whose record was taken
    /// out.
    pub fn cleanup_dead_processes(&mut self, exited: &Vec<TunnelId>) -> (cleaned: Vec<TunnelId>)
        requires
            old(self).wf(),
        ensures
            final(self).wf(),
            sweep_post(*old(self), *final(self), exited@),
            cleaned@ == reaped_in_order(*old(self), exited@),
    {
        let mut cleaned: Vec<TunnelId> = Vec::new();
        let mut i: usize = 0;
        proof {
            assert(reaped(*old(self), exited@.take(0)) =~= Set::<u128>::empty());
            assert(self.live() =~= old(self).live().remove_keys(Set::<u128>::empty()));
            assert(reaped_with_log(*old(self), exited@.take(0)) =~= Set::<u128>::empty());
            assert(self.log_paths().dom() =~= old(self).log_paths().dom().union(
                Set::<u128>::empty(),
            ));
            assert(cleaned@.map_values(|id: TunnelId| id.0).to_set() =~= Set::<u128>::empty());
            assert(cleaned@ =~= reaped_in_order(*old(self), exited@.take(0)));
        }
        while i < exited.len()
            invariant
                i <= exited.len(),
                old(self).wf(),
                self.wf(),
                sweep_post(*old(self), *self, exited@.take(i as int)),
                cleaned@.map_values(|id: TunnelId| id.0).to_set() == reaped(
                    *old(self),
                    exited@.take(i as int),
                ),
                cleaned@ == reaped_in_order(*old(self), exited@.take(i as int)),
            decreases exited.len() - i,
        {
            let id = exited[i];
            let ghost before = *self;
            let ghost gone_before = reaped(*old(self), exited@.take(i as int));
            let ghost gone_after = reaped(*old(self), exited@.take(i + 1));
            let ghost logged_before = reaped_with_log(*old(self), exited@.take(i as int));
            let ghost logged_after = reaped_with_log(*old(self), exited@.take(i + 1));
            let ghost cleaned_before = cleaned@;
            let dead = self.processes.get(&id.0).is_some();
            proof {
                assert(exited@.take(i + 1)[i as int] == id);
                assert(exited@.take(i + 1).drop_last() =~= exited@.take(i as int));
                let keys = cleaned_before.map_values(|id: TunnelId| id.0);
                if cleaned_before.contains(id) {
                    let at = choose|at: int| 0 <= at < cleaned_before.len() && cleaned_before[at] == id;
                    assert(keys[at] == id.0);
                    assert(keys.to_set().contains(id.0));
                }
                if gone_before.contains(id.0) {
                    assert(keys.to_set().contains(id.0));
                    let at = choose|at: int| 0 <= at < keys.len() && keys[at] == id.0;
                    assert(cleaned_before[at] == id);
                }
                assert(dead == (old(self).live().contains_key(id.0) && !cleaned_before.contains(
                    id,
                )));
                assert forall|k: u128| gone_after.contains(k) <==> gone_before.contains(k) || (k
                    == id.0 && old(self).live().contains_key(id.0)) by {
                    if gone_before.contains(k) {
                        let j = choose|j: int|
                            0 <= j < exited@.take(i as int).len() && (#[trigger] exited@.take(
                                i as int,
                            )[j]).0 == k;
                        assert(exited@.take(i + 1)[j].0 == k);
                    }
                    if gone_after.contains(k) && k != id.0 {
                        let j = choose|j: int|
                            0 <= j < exited@.take(i + 1).len() && (#[trigger] exited@.take(
                                i + 1,
                            )[j]).0 == k;
                        assert(exited@.take(i as int)[j].0 == k);
                    }
                }
            }
            if dead {
                match self.processes.remove(&id.0) {
                    Some(process) => {
                        cancel_token(&process.cancellation_token);
                        if process.pid().is_some() {
                            self.last_known_log_paths.insert(id.0, process.log_path);
                        }
                        cleaned.push(id);
                    },
                    None => {},
                }
                proof {
                    assert(old(self).live().contains_key(id.0));
                    assert(gone_after =~= gone_before.insert(id.0));
                    assert(self.live() =~= old(self).live().remove_keys(gone_after));
                    if old(self).is_running(id) {
                        assert(logged_after =~= logged_before.insert(id.0));
                    } else {
                        assert(logged_after =~= logged_before);
                    }
                    assert(self.log_paths().dom() =~= old(self).log_paths().dom().union(
                        logged_after,
                    ));
                    assert(cleaned@.map_values(|id: TunnelId| id.0) =~= cleaned_before.map_values(
                        |id: TunnelId| id.0,
                    ).push(id.0));
                    cleaned_before.map_values(|id: TunnelId| id.0).lemma_push_to_set_commute(
                        id.0,
                    );
                }
            } else {
                proof {
                    if old(self).live().contains_key(id.0) {
                        assert(gone_before.contains(id.0));
                    }
                    assert(gone_after =~= gone_before);
                    assert(logged_after =~= logged_before);
                }
            }
            i += 1;
        }
        proof {
            assert(exited@.take(exited.len() as int) =~= exited@);
        }
        cleaned
    }

    /// The entries as they are handed to a caller, each with what is known
    /// of its process, after a sweep for the processes of `exited`.
    pub fn list_tunnels(&mut self, exited: &Vec<TunnelId>) -> (entries: Vec<TunnelEntry>)
        requires
            old(self).wf(),
        ensures
            final(self).wf(),
            sweep_post(*old(self), *final(self), exited@),
            entries@ == final(self).listing(),
    {
        let _ = self.cleanup_dead_processes(exited);
        let mut entries: Vec<TunnelEntry> = Vec::new();
        let mut i: usize = 0;
        while i < self.config.tunnels.len()
            invariant
                i <= self.config.tunnels.len(),
                entries@ == self.listing().take(i as int),
            decreases self.config.tunnels.len() - i,
        {
            let tunnel = &self.config.tunnels[i];
            let status = self.get_tunnel_status(tunnel.id);
            let mut entry = tunnel.clone();
            entry.runtime_state = Some(status);
            entries.push(entry);
            proof {
                assert(entries@ =~= self.listing().take(i + 1));
            }
            i += 1;
        }
        proof {
            assert(self.listing().take(self.config.tunnels.len() as int) =~= self.listing());
        }
        entries
    }

    /// Entry `id` as it is handed to a caller, with what is known of its
    /// process, after a sweep for the processes of `exited`.
    pub fn get_tunnel(&mut self, id: TunnelId, exited: &Vec<TunnelId>) -> (entry: Option<
        TunnelEntry,
    >)
        requires
            old(self).wf(),
        ensures
            final(self).wf(),
            sweep_post(*old(self), *final(self), exited@),
            match entry {
                Some(entry) => present(final(self).config().tunnels@, id) && entry == with_status(
                    entry_of(final(self).config().tunnels@, id),
                    final(self).status_of(id),
                ),
                None => absent(final(self).config().tunnels@, id),
            },
    {
        let _ = self.cleanup_dead_processes(exited);
        match find_position(&self.config.tunnels, id) {
            Some(index) => {
                proof {
                    lemma_first_at_unique(self.config.tunnels@, id, index as int);
                }
                let tunnel = &self.config.tunnels[index];
                let status = self.get_tunnel_status(tunnel.id);
                let mut entry = tunnel.clone();
                entry.runtime_state = Some(status);
                Some(entry)
            },
            None => None,
        }
    }

    /// Shuts the supervisor down: cancels the signal that every monitor
    /// depends on, takes every process with a process id out of the live map,
    /// and says which processes are to be ended.
    pub fn shutdown(&mut self) -> (requests: Vec<StopRequest>)
        requires
            old(self).wf(),
        ensures
            final(self).wf(),
            shutdown_post(*old(self), *final(self), requests@),
    {
        cancel_token(&self.cancellation_token);
        let running = self.running_processes();
        let mut requests: Vec<StopRequest> = Vec::new();
        let mut i: usize = 0;
        while i < running.len()
            invariant
                i <= running.len(),
                old(self).wf(),
                self.wf(),
                self.same_settings(old(self)),
                forall|j: int|
                    0 <= j < running@.len() ==> old(self).is_running((#[trigger] running@[j]).0)
                        && old(self).live()[running@[j].0.0].pid == Some(running@[j].1),
                forall|a: int, b: int|
                    0 <= a < b < running@.len() ==> (#[trigger] running@[a]).0 != (
                    #[trigger] running@[b]).0,
                forall|r: int|
                    0 <= r < requests@.len() ==> lists(
                        running@,
                        i as int,
                        (#[trigger] requests@[r]).tunnel_id.0,
                    ),
                forall|a: int, b: int|
                    0 <= a < b < requests@.len() ==> (#[trigger] requests@[a]).tunnel_id != (
                    #[trigger] requests@[b]).tunnel_id,
                forall|k: u128| #[trigger]
                    self.live().contains_key(k) <==> old(self).live().contains_key(k) && !lists(
                        running@,
                        i as int,
                        k,
                    ),
                forall|k: u128| #[trigger]
                    self.live().contains_key(k) ==> self.live()[k] == old(self).live()[k],
                forall|k: u128| #[trigger]
                    self.log_paths().contains_key(k) <==> old(self).log_paths().contains_key(k)
                        || lists(running@, i as int, k),
                forall|k: u128| #[trigger]
                    self.log_paths().contains_key(k) ==> self.log_paths()[k] == if lists(
                        running@,
                        i as int,
                        k,
                    ) {
                        old(self).live()[k].log_path
                    } else {
                        old(self).log_paths()[k]
                    },
                forall|j: int|
                    0 <= j < requests@.len() ==> old(self).is_running(
                        (#[trigger] requests@[j]).tunnel_id,
                    ) && Some(requests@[j].pid) == old(self).live()[requests@[j].tunnel_id.0].pid
                        && requests@[j].timeout_secs == STOP_TIMEOUT_SECS,
                forall|k: u128| #[trigger] lists(running@, i as int, k) ==> asks_to_stop(requests@, k),
            decreases running.len() - i,
        {
            let id = running[i].0;
            let ghost before = *self;
            let ghost requests_before = requests@;
            proof {
                assert(old(self).is_running(running@[i as int].0));
                assert forall|k: u128| lists(running@, i + 1, k) <==> lists(running@, i as int, k)
                    || k == id.0 by {
                    if lists(running@, i + 1, k) && k != id.0 {
                        let j = choose|j: int|
                            0 <= j < i + 1 && j < running@.len() && (#[trigger] running@[j]).0.0
                                == k;
                        assert(j < i);
                    }
                    if lists(running@, i as int, k) {
                        let j = choose|j: int|
                            0 <= j < i && j < running@.len() && (#[trigger] running@[j]).0.0 == k;
                        assert(running@[j].0.0 == k);
                    }
                    if k == id.0 {
                        assert(running@[i as int].0.0 == k);
                    }
                }
            }
            match self.stop_tunnel(id) {
                Ok(request) => {
                    requests.push(request);
                    proof {
                        assert(requests@[requests_before.len() as int].tunnel_id.0 == id.0);
                    }
                },
                Err(_) => {},
            }
            proof {
                assert forall|r: int| 0 <= r < requests@.len() implies lists(
                    running@,
                    i + 1,
                    (#[trigger] requests@[r]).tunnel_id.0,
                ) by {
                    if r < requests_before.len() {
                        assert(requests@[r] == requests_before[r]);
                        assert(lists(running@, i as int, requests_before[r].tunnel_id.0));
                    } else {
                        assert(requests@[r].tunnel_id.0 == id.0);
                    }
                }
                assert forall|a: int, b: int| 0 <= a < b < requests@.len() implies (
                #[trigger] requests@[a]).tunnel_id != (#[trigger] requests@[b]).tunnel_id by {
                    assert(requests@[a] == requests_before[a]);
                    if b < requests_before.len() {
                        assert(requests@[b] == requests_before[b]);
                    } else {
                        assert(requests@[b].tunnel_id == id);
                        assert(lists(running@, i as int, requests_before[a].tunnel_id.0));
                        let j = choose|j: int|
                            0 <= j < i && j < running@.len() && (#[trigger] running@[j]).0.0
                                == requests_before[a].tunnel_id.0;
                        assert(running@[j].0 != running@[i as int].0);
                    }
                }
                assert forall|k: u128| #[trigger] lists(running@, i + 1, k) implies asks_to_stop(
                    requests@,
                    k,
                ) by {
                    if k == id.0 && before.is_running(id) {
                        assert(requests@[requests_before.len() as int].tunnel_id.0 == id.0);
                    } else {
                        assert(lists(running@, i as int, k));
                        assert(asks_to_stop(requests_before, k));
                        let r = choose|r: int|
                            0 <= r < requests_before.len() && (
                            #[trigger] requests_before[r]).tunnel_id.0 == k;
                        assert(requests@[r] == requests_before[r]);
                    }
                }
            }
            i += 1;
        }
        proof {
            assert(i == running@.len());
            assert forall|k: u128| old(self).is_running(TunnelId(k)) <==> lists(
                running@,
                i as int,
                k,
            ) by {
                if lists(running@, i as int, k) {
                    let j = choose|j: int|
                        0 <= j < i && j < running@.len() && (#[trigger] running@[j]).0.0 == k;
                    assert(old(self).is_running(running@[j].0));
                }
            }
            assert forall|k: u128| #[trigger]
                self.live().contains_key(k) <==> old(self).live().contains_key(k) && old(
                    self,
                ).live()[k].pid is None by {
                assert(old(self).is_running(TunnelId(k)) <==> lists(running@, i as int, k));
            }
            assert forall|k: u128| #[trigger]
                self.log_paths().contains_key(k) <==> old(self).log_paths().contains_key(k)
                    || old(self).is_running(TunnelId(k)) by {
                assert(old(self).is_running(TunnelId(k)) <==> lists(running@, i as int, k));
            }
            assert forall|k: u128| #[trigger] self.log_paths().contains_key(k) implies self.log_paths()[k]
                == if old(self).is_running(TunnelId(k)) {
                old(self).live()[k].log_path
            } else {
                old(self).log_paths()[k]
            } by {
                assert(old(self).is_running(TunnelId(k)) <==> lists(running@, i as int, k));
            }
            assert forall|k: u128| old(self).is_running(TunnelId(k)) implies #[trigger] asks_to_stop(
                requests@,
                k,
            ) by {
                assert(lists(running@, i as int, k));
            }
        }
        requests
    }
}

/// At most one live process exists for an entry: the records of two
/// different places in the live map never belong to the same entry.
pub proof fn lemma_one_process_per_entry(state: BackendState, a: u128, b: u128)
    requires
        state.wf(),
        state.live().contains_key(a),
        state.live().contains_key(b),
        state.live()[a].tunnel_id == state.live()[b].tunnel_id,
    ensures
        a == b,
{
}

/// The beginning of a start leaves a sound state sound.
pub proof fn lemma_begin_start_keeps_sound(
    pre: BackendState,
    post: BackendState,
    id: TunnelId,
    binary_present: bool,
    result: Result<StartRequest, BackendError>,
)
    requires
        pre.wf(),
        begin_start_post(pre, post, id, binary_present, result),
    ensures
        post.wf(),
{
}

/// The completion of a start leaves a sound state sound.
pub proof fn lemma_complete_start_keeps_sound(
    pre: BackendState,
    post: BackendState,
    request: StartRequest,
    outcome: SpawnOutcome,
    result: Result<ProcessId, BackendError>,
)
    requires
        pre.wf(),
        complete_start_post(pre, post, request, outcome, result),
    ensures
        post.wf(),
{
}

/// A stop leaves a sound state sound.
pub proof fn lemma_stop_keeps_sound(
    pre: BackendState,
    post: BackendState,
    id: TunnelId,
    result: Result<StopRequest, BackendError>,
)
    requires
        pre.wf(),
        stop_post(pre, post, id, result),
    ensures
        post.wf(),
{
}

/// A sweep of dead processes leaves a sound state sound.
pub proof fn lemma_sweep_keeps_sound(pre: BackendState, post: BackendState, exited: Seq<TunnelId>)
    requires
        pre.wf(),
        sweep_post(pre, post, exited),
    ensures
        post.wf(),
{
}

/// One of `seen` is entry `id` with a process that was not seen alive.
pub open spec fn seen_dead(seen: Seq<(TunnelId, Liveness)>, id: TunnelId) -> bool {
    exists|i: int| 0 <= i < seen.len() && (#[trigger] seen[i]).0 == id && !(seen[i].1 is Alive)
}

/// The entries that a sweep is told are those whose process was not seen
/// alive, and no others.
pub proof fn lemma_dead_among_names(seen: Seq<(TunnelId, Liveness)>, id: TunnelId)
    ensures
        dead_among(seen).contains(id) <==> seen_dead(seen, id),
    decreases seen.len(),
{
    if seen.len() > 0 {
        let front = seen.drop_last();
        lemma_dead_among_names(front, id);
        if seen_dead(front, id) {
            let i = choose|i: int|
                0 <= i < front.len() && (#[trigger] front[i]).0 == id && !(front[i].1 is Alive);
            assert(seen[i].0 == id && !(seen[i].1 is Alive));
        }
        if seen_dead(seen, id) {
            let i = choose|i: int|
                0 <= i < seen.len() && (#[trigger] seen[i]).0 == id && !(seen[i].1 is Alive);
            if i < front.len() {
                assert(front[i].0 == id && !(front[i].1 is Alive));
            }
        }
        if seen.last().1 is Alive {
        } else {
            let named = dead_among(front);
            let all = named.push(seen.last().0);
            assert(all[named.len() as int] == seen.last().0);
            if named.contains(id) {
                let at = choose|at: int| 0 <= at < named.len() && named[at] == id;
                assert(all[at] == id);
            }
            if all.contains(id) {
                let at = choose|at: int| 0 <= at < all.len() && all[at] == id;
                if at < named.len() {
                    assert(named[at] == id);
                }
            }
            if seen.last().0 == id {
                assert(seen[seen.len() - 1].0 == id);
            }
        }
    }
}

/// A sweep of dead processes takes every named process record out of the
/// live map, leaves every other record as it was, adds none, and leaves
/// where each entry logs as it was: the log of a process that went is the
/// log that its entry last wrote.
pub proof fn lemma_sweep_result(pre: BackendState, post: BackendState, exited: Seq<TunnelId>)
    requires
        pre.wf(),
        sweep_post(pre, post, exited),
    ensures
        forall|i: int| 0 <= i < exited.len() ==> !post.live().contains_key((#[trigger] exited[i]).0),
        forall|k: u128| #[trigger]
            post.live().contains_key(k) ==> pre.live().contains_key(k) && post.live()[k]
                == pre.live()[k],
        forall|k: u128|
            pre.live().contains_key(k) && !reaped(pre, exited).contains(k)
                ==> #[trigger] post.live().contains_key(k),
        forall|i: int|
            0 <= i < exited.len() && pre.is_running(#[trigger] exited[i]) ==> post.log_path_of(
                exited[i],
            ) == Some(pre.live()[exited[i].0].log_path),
        forall|id: TunnelId| #[trigger] post.log_path_of(id) == pre.log_path_of(id),
        post.config() == pre.config(),
{
    assert forall|i: int| 0 <= i < exited.len() implies !post.live().contains_key(
        (#[trigger] exited[i]).0,
    ) by {
        if pre.live().contains_key(exited[i].0) {
            assert(reaped(pre, exited).contains(exited[i].0));
        }
    }
    assert forall|id: TunnelId| #[trigger] post.log_path_of(id) == pre.log_path_of(id) by {
        if pre.is_running(id) && !reaped(pre, exited).contains(id.0) {
            assert(post.live().contains_key(id.0));
        }
        if pre.is_running(id) && reaped(pre, exited).contains(id.0) {
            assert(reaped_with_log(pre, exited).contains(id.0));
            assert(post.log_paths().contains_key(id.0));
        }
        if !pre.is_running(id) {
            assert(!reaped_with_log(pre, exited).contains(id.0));
            if post.log_paths().contains_key(id.0) {
                assert(pre.log_paths().contains_key(id.0));
            }
        }
    }
    assert forall|i: int|
        0 <= i < exited.len() && pre.is_running(#[trigger] exited[i]) implies post.log_path_of(
        exited[i],
    ) == Some(pre.live()[exited[i].0].log_path) by {
        assert(post.log_path_of(exited[i]) == pre.log_path_of(exited[i]));
    }
}

/// A shutdown leaves a sound state sound.
pub proof fn lemma_shutdown_keeps_sound(
    pre: BackendState,
    post: BackendState,
    requests: Seq<StopRequest>,
)
    requires
        pre.wf(),
        shutdown_post(pre, post, requests),
    ensures
        post.wf(),
{
}

/// A start that follows a start of the same entry is refused, whether the
/// first is still under way or has completed, and leaves the live map as it
/// was: the entry keeps the one process record it has.
pub proof fn lemma_second_start_is_refused(
    before: BackendState,
    between: BackendState,
    after: BackendState,
    id: TunnelId,
    binary_at_first: bool,
    binary_at_second: bool,
    first: Result<StartRequest, BackendError>,
    second: Result<StartRequest, BackendError>,
)
    requires
        begin_start_post(before, between, id, binary_at_first, first),
        first is Ok,
        begin_start_post(between, after, id, binary_at_second, second),
    ensures
        second matches Err(BackendError::Transitional { .. }),
        after.live() == between.live(),
{
}

/// Once a start has completed with a running process, another start of the
/// same entry is refused as already running.
pub proof fn lemma_start_of_running_is_refused(
    before: BackendState,
    after: BackendState,
    id: TunnelId,
    binary_present: bool,
    result: Result<StartRequest, BackendError>,
)
    requires
        before.is_running(id),
        begin_start_post(before, after, id, binary_present, result),
    ensures
        result is Err,
        present(before.config().tunnels@, id) ==> (result matches Err(
            BackendError::AlreadyRunning { .. },
        )),
        after.live() == before.live(),
{
}

/// Stopping an entry without a live process fails as not running and changes
/// nothing; stopping an entry whose process runs succeeds and leaves the
/// entry out of the live map.
pub proof fn lemma_stop_outcomes(
    before: BackendState,
    after: BackendState,
    id: TunnelId,
    result: Result<StopRequest, BackendError>,
)
    requires
        stop_post(before, after, id, result),
    ensures
        !before.live().contains_key(id.0) ==> (result matches Err(BackendError::NotRunning)),
        !before.live().contains_key(id.0) ==> after.live() == before.live(),
        before.is_running(id) ==> result is Ok && !after.live().contains_key(id.0),
{
}

/// Editing an entry whose process runs is refused as a conflict of state,
/// whatever the new entry holds. The configuration in force is not touched by
/// an edit in any case, since an edit only proposes a configuration.
pub proof fn lemma_edit_of_running_is_refused(
    state: BackendState,
    id: TunnelId,
    entry: TunnelEntry,
    binary_present: bool,
    result: Result<Config, BackendError>,
)
    requires
        state.is_running(id),
        edit_post(state, id, entry, binary_present, result),
    ensures
        result matches Err(BackendError::CannotEditRunning),
{
}

} // verus!
