//! A supervisor that starts no process: it hands out made-up process ids and
//! keeps everything else as the real one does. For trying the application
//! without the tunnel binary.

use crate::backend::backend_impl::{
    absent, added_ok, autostart_of, config_with_added, config_with_replaced, config_without,
    entry_of, find_position, lemma_autostart_ids, lemma_first_at_unique, names_key, present,
    removed_ok, replaced_ok, with_status, BackendError,
};
use crate::backend::types::{
    Config, ConfigError, EntryError, ProcessId, Timestamp, TunnelEntry, TunnelId,
    TunnelRuntimeState,
};
use crate::text::{decimal, decimal_string};
use std::collections::HashMap;
use vstd::prelude::*;
use vstd::string::*;

verus! {

broadcast use vstd::std_specs::hash::group_hash_axioms;

/// The smallest made-up process id.
pub const FAKE_PID_BASE: u32 = 10_000;

/// How many made-up process ids there are.
pub const FAKE_PID_SPAN: u64 = 100_000;

/// A made-up process.
#[derive(Debug, Clone, Copy)]
pub struct MockProcess {
    pub pid: ProcessId,
    pub started_at: Timestamp,
}

/// The made-up process id for the moment `millis` milliseconds after the
/// epoch.
pub open spec fn fake_pid_at(millis: int) -> int {
    millis % 100_000 + 10_000
}

/// The made-up process id for a given moment.
pub fn fake_pid_for(now: &Timestamp) -> (pid: ProcessId)
    ensures
        pid.0 == fake_pid_at(now.total_nanos() / 1_000_000),
{
    let (secs, nanos) = now.parts();
    let low: u64 = (secs % 100) * 1000 + (nanos / 1_000_000) as u64;
    proof {
        let total = secs as int * 1_000_000_000 + nanos as int;
        let millis = total / 1_000_000;
        assert(millis == secs as int * 1000 + nanos as int / 1_000_000) by (nonlinear_arith)
            requires
                total == secs as int * 1_000_000_000 + nanos as int,
                millis == total / 1_000_000,
                0 <= nanos,
        ;
        assert(millis % 100_000 == (secs as int % 100) * 1000 + nanos as int / 1_000_000)
            by (nonlinear_arith)
            requires
                millis == secs as int * 1000 + nanos as int / 1_000_000,
                0 <= nanos < 1_000_000_000,
                0 <= secs,
        ;
    }
    ProcessId((low % FAKE_PID_SPAN) as u32 + FAKE_PID_BASE)
}

/// The log that a made-up process is said to write.
pub open spec fn mock_log_path(pid: ProcessId) -> Seq<char> {
    "logs/mock-"@ + decimal(pid.0 as nat) + ".log"@
}

/// The supervisor that starts no process.
#[derive(Debug)]
pub struct MockBackend {
    config: Config,
    mock_processes: HashMap<u128, MockProcess>,
}

impl MockBackend {
    /// The configuration in force.
    pub closed spec fn config(&self) -> Config {
        self.config
    }

    /// The made-up processes, by the identifier of their entry.
    pub closed spec fn live(&self) -> Map<u128, MockProcess> {
        self.mock_processes@
    }

    /// The state is sound: the configuration is well formed.
    pub open spec fn wf(&self) -> bool {
        self.config().well_formed()
    }

    /// What is known of the process of entry `id`.
    pub open spec fn status_holds(&self, id: TunnelId, status: TunnelRuntimeState) -> bool {
        if self.live().contains_key(id.0) {
            status matches TunnelRuntimeState::Running { pid, started_at, log_path } && pid
                == self.live()[id.0].pid && started_at == self.live()[id.0].started_at
                && log_path@ == mock_log_path(pid)
        } else {
            status is Stopped
        }
    }

    /// A mock supervisor without processes. A configuration that is not well
    /// formed is replaced by the default one.
    pub fn new(config: Config) -> (state: Self)
        ensures
            state.wf(),
            state.live() == Map::<u128, MockProcess>::empty(),
            config.well_formed() ==> state.config() == config,
            !config.well_formed() ==> state.config().is_default(),
    {
        let config = match config.validate_given(true) {
            Ok(_) => config,
            Err(_) => Config::default(),
        };
        MockBackend { config, mock_processes: HashMap::new() }
    }

    /// Whether the state is sound. Every state that `new` gave and that only
    /// the methods of the mock supervisor changed is.
    pub fn is_sound(&self) -> (sound: bool)
        ensures
            sound == self.wf(),
    {
        self.config.validate_given(true).is_ok()
    }

    /// A made-up process id, taken from the clock.
    pub fn generate_fake_pid() -> (pid: ProcessId)
        ensures
            FAKE_PID_BASE <= pid.0 < FAKE_PID_BASE + FAKE_PID_SPAN,
    {
        let now = Timestamp::now();
        fake_pid_for(&now)
    }

    /// The configuration in force.
    pub fn get_config(&self) -> (config: &Config)
        ensures
            *config == self.config(),
    {
        &self.config
    }

    /// Checks an entry against the rules for entries.
    pub fn validate_tunnel_entry(&self, entry: &TunnelEntry) -> (result: Result<(), EntryError>)
        ensures
            result is Ok <==> entry.is_valid(),
    {
        entry.validate()
    }

    /// Whether the entry has a made-up process.
    pub fn is_tunnel_running(&self, id: TunnelId) -> (running: bool)
        ensures
            running == self.live().contains_key(id.0),
    {
        self.mock_processes.get(&id.0).is_some()
    }

    /// The configuration to persist in order to add `entry`.
    pub fn add_tunnel(&self, entry: TunnelEntry) -> (result: Result<Config, BackendError>)
        requires
            self.wf(),
        ensures
            exists|binary_present: bool| #[trigger]
                added_ok(self.config(), entry, binary_present, result),
    {
        let binary_present = self.config.global.probe_binary();
        let result = config_with_added(&self.config, entry, binary_present);
        proof {
            assert(added_ok(self.config(), entry, binary_present, result));
        }
        result
    }

    /// The configuration to persist in order to replace entry `id` by
    /// `entry`.
    pub fn edit_tunnel(&self, id: TunnelId, entry: TunnelEntry) -> (result: Result<
        Config,
        BackendError,
    >)
        requires
            self.wf(),
        ensures
            exists|binary_present: bool| #[trigger]
                replaced_ok(
                    self.config(),
                    self.live().contains_key(id.0),
                    id,
                    entry,
                    binary_present,
                    result,
                ),
    {
        let running = self.is_tunnel_running(id);
        let binary_present = self.config.global.probe_binary();
        let result = config_with_replaced(&self.config, running, id, entry, binary_present);
        proof {
            assert(replaced_ok(
                self.config(),
                self.live().contains_key(id.0),
                id,
                entry,
                binary_present,
                result,
            ));
        }
        result
    }

    /// Stops the made-up process of entry `id`, if it has one, and gives the
    /// configuration to persist, without the entry.
    pub fn delete_tunnel(&mut self, id: TunnelId) -> (result: Result<Config, BackendError>)
        requires
            old(self).wf(),
        ensures
            final(self).wf(),
            final(self).config() == old(self).config(),
            final(self).live() == old(self).live().remove(id.0),
            removed_ok(old(self).config(), id, result),
    {
        self.mock_processes.remove(&id.0);
        config_without(&self.config, id)
    }

    /// Puts `config` in force. A configuration that is not well formed is
    /// refused and changes nothing.
    pub fn commit_config(&mut self, config: Config) -> (result: Result<(), ConfigError>)
        requires
            old(self).wf(),
        ensures
            final(self).wf(),
            result is Ok <==> config.well_formed(),
            result matches Err(fault) ==> config.fault(true) == Some(fault),
            final(self).config() == if config.well_formed() {
                config
            } else {
                old(self).config()
            },
            final(self).live() == old(self).live(),
    {
        match config.validate_given(true) {
            Ok(_) => {
                self.config = config;
                Ok(())
            },
            Err(fault) => Err(fault),
        }
    }

    /// Starts a made-up process for entry `id`.
    pub fn start_tunnel(&mut self, id: TunnelId) -> (result: Result<ProcessId, BackendError>)
        requires
            old(self).wf(),
        ensures
            final(self).wf(),
            final(self).config() == old(self).config(),
            match result {
                Ok(pid) => {
                    &&& present(old(self).config().tunnels@, id)
                    &&& !old(self).live().contains_key(id.0)
                    &&& final(self).live().contains_key(id.0)
                    &&& final(self).live()[id.0].pid == pid
                    &&& final(self).live() == old(self).live().insert(
                        id.0,
                        final(self).live()[id.0],
                    )
                    &&& FAKE_PID_BASE <= pid.0 < FAKE_PID_BASE + FAKE_PID_SPAN
                },
                Err(e) => final(self).live() == old(self).live() && match e {
                    BackendError::NotFound { id: missing } => missing == id && absent(
                        old(self).config().tunnels@,
                        id,
                    ),
                    BackendError::AlreadyRunning { tag } => present(
                        old(self).config().tunnels@,
                        id,
                    ) && old(self).live().contains_key(id.0) && tag == entry_of(
                        old(self).config().tunnels@,
                        id,
                    ).tag,
                    _ => false,
                },
            },
    {
        let index = match find_position(&self.config.tunnels, id) {
            Some(index) => index,
            None => {
                return Err(BackendError::NotFound { id });
            },
        };
        proof {
            lemma_first_at_unique(self.config.tunnels@, id, index as int);
        }
        if self.is_tunnel_running(id) {
            return Err(BackendError::AlreadyRunning { tag: self.config.tunnels[index].tag.clone() });
        }
        let pid = MockBackend::generate_fake_pid();
        self.mock_processes.insert(id.0, MockProcess { pid, started_at: Timestamp::now() });
        Ok(pid)
    }

    /// Stops the made-up process of entry `id`.
    pub fn stop_tunnel(&mut self, id: TunnelId) -> (result: Result<(), BackendError>)
        requires
            old(self).wf(),
        ensures
            final(self).wf(),
            final(self).config() == old(self).config(),
            final(self).live() == old(self).live().remove(id.0),
            match result {
                Ok(_) => old(self).live().contains_key(id.0),
                Err(e) => e is NotRunning && !old(self).live().contains_key(id.0),
            },
    {
        match self.mock_processes.remove(&id.0) {
            Some(_) => Ok(()),
            None => {
                proof {
                    assert(self.live() =~= old(self).live().remove(id.0));
                }
                Err(BackendError::NotRunning)
            },
        }
    }

    /// Starts every entry flagged for autostart, in declaration order, each
    /// on its own: a failure does not keep the others from starting. An
    /// entry is started unless it had a process already.
    pub fn start_autostart_tunnels(&mut self) -> (results: Vec<
        (TunnelId, Result<ProcessId, BackendError>),
    >)
        requires
            old(self).wf(),
        ensures
            final(self).wf(),
            final(self).config() == old(self).config(),
            results@.len() == autostart_of(old(self).config().tunnels@).len(),
            forall|i: int|
                0 <= i < results@.len() ==> (#[trigger] results@[i]).0 == autostart_of(
                    old(self).config().tunnels@,
                )[i] && (results@[i].1 is Ok <==> !old(self).live().contains_key(
                    results@[i].0.0,
                )),
            forall|k: u128| #[trigger]
                final(self).live().contains_key(k) <==> old(self).live().contains_key(k)
                    || names_key(
                    autostart_of(old(self).config().tunnels@),
                    results@.len() as int,
                    k,
                ),
    {
        let ids = self.autostart_ids();
        proof {
            lemma_autostart_ids(self.config().tunnels@);
        }
        let mut results: Vec<(TunnelId, Result<ProcessId, BackendError>)> = Vec::new();
        let mut i: usize = 0;
        while i < ids.len()
            invariant
                i <= ids.len(),
                self.wf(),
                self.config() == old(self).config(),
                ids@ == autostart_of(old(self).config().tunnels@),
                forall|j: int|
                    0 <= j < ids@.len() ==> !absent(self.config().tunnels@, #[trigger] ids@[j]),
                forall|a: int, b: int|
                    0 <= a < b < ids@.len() ==> #[trigger] ids@[a] != #[trigger] ids@[b],
                results@.len() == i,
                forall|j: int|
                    0 <= j < i ==> (#[trigger] results@[j]).0 == ids@[j] && (results@[j].1 is Ok
                        <==> !old(self).live().contains_key(results@[j].0.0)),
                forall|k: u128| #[trigger]
                    self.live().contains_key(k) <==> old(self).live().contains_key(k) || names_key(
                        ids@,
                        i as int,
                        k,
                    ),
            decreases ids.len() - i,
        {
            let id = ids[i];
            let ghost before = *self;
            proof {
                assert(!absent(self.config().tunnels@, ids@[i as int]));
                if names_key(ids@, i as int, id.0) {
                    let j = choose|j: int|
                        0 <= j < i && j < ids@.len() && (#[trigger] ids@[j]).0 == id.0;
                    assert(ids@[j] != ids@[i as int]);
                }
                assert forall|k: u128| names_key(ids@, i + 1, k) <==> names_key(ids@, i as int, k)
                    || k == id.0 by {
                    if names_key(ids@, i + 1, k) && k != id.0 {
                        let j = choose|j: int|
                            0 <= j < i + 1 && j < ids@.len() && (#[trigger] ids@[j]).0 == k;
                        assert(j < i);
                    }
                    if names_key(ids@, i as int, k) {
                        let j = choose|j: int|
                            0 <= j < i && j < ids@.len() && (#[trigger] ids@[j]).0 == k;
                        assert(ids@[j].0 == k);
                    }
                    if k == id.0 {
                        assert(ids@[i as int].0 == k);
                    }
                }
            }
            let result = self.start_tunnel(id);
            results.push((id, result));
            i += 1;
        }
        results
    }

    /// The identifiers of the entries to start at startup, in declaration
    /// order.
    pub fn autostart_ids(&self) -> (ids: Vec<TunnelId>)
        ensures
            ids@ == autostart_of(self.config().tunnels@),
    {
        let mut ids: Vec<TunnelId> = Vec::new();
        let mut i: usize = 0;
        while i < self.config.tunnels.len()
            invariant
                i <= self.config.tunnels.len(),
                ids@ == autostart_of(self.config().tunnels@.take(i as int)),
            decreases self.config.tunnels.len() - i,
        {
            proof {
                assert(self.config().tunnels@.take(i + 1).drop_last() =~= self.config().tunnels@.take(
                    i as int,
                ));
            }
            if self.config.tunnels[i].autostart {
                ids.push(self.config.tunnels[i].id);
            }
            i += 1;
        }
        proof {
            assert(self.config().tunnels@.take(self.config.tunnels.len() as int)
                =~= self.config().tunnels@);
        }
        ids
    }

    /// Where a made-up process is said to log.
    fn log_path_for(pid: ProcessId) -> (path: String)
        ensures
            path@ == mock_log_path(pid),
    {
        let number = decimal_string(pid.0 as u64);
        let mut path = String::from_str("logs/mock-");
        path.append(number.as_str());
        path.append(".log");
        path
    }

    /// What is known of the process of entry `id`.
    pub fn get_tunnel_status(&self, id: TunnelId) -> (status: TunnelRuntimeState)
        ensures
            self.status_holds(id, status),
    {
        match self.mock_processes.get(&id.0) {
            Some(process) => TunnelRuntimeState::Running {
                pid: process.pid,
                started_at: process.started_at,
                log_path: MockBackend::log_path_for(process.pid),
            },
            None => TunnelRuntimeState::Stopped,
        }
    }

    /// The status of every entry, in declaration order.
    pub fn get_all_statuses(&self) -> (statuses: Vec<(TunnelId, TunnelRuntimeState)>)
        ensures
            statuses@.len() == self.config().tunnels@.len(),
            forall|i: int|
                0 <= i < statuses@.len() ==> (#[trigger] statuses@[i]).0
                    == self.config().tunnels@[i].id && self.status_holds(
                    statuses@[i].0,
                    statuses@[i].1,
                ),
    {
        let mut statuses: Vec<(TunnelId, TunnelRuntimeState)> = Vec::new();
        let mut i: usize = 0;
        while i < self.config.tunnels.len()
            invariant
                i <= self.config.tunnels.len(),
                statuses@.len() == i,
                forall|j: int|
                    0 <= j < i ==> (#[trigger] statuses@[j]).0 == self.config().tunnels@[j].id
                        && self.status_holds(statuses@[j].0, statuses@[j].1),
            decreases self.config.tunnels.len() - i,
        {
            let id = self.config.tunnels[i].id;
            statuses.push((id, self.get_tunnel_status(id)));
            i += 1;
        }
        statuses
    }

    /// Where the made-up process of entry `id` is said to log.
    pub fn get_log_path(&self, id: TunnelId) -> (path: Option<String>)
        ensures
            match path {
                Some(path) => self.live().contains_key(id.0) && path@ == mock_log_path(
                    self.live()[id.0].pid,
                ),
                None => !self.live().contains_key(id.0),
            },
    {
        match self.mock_processes.get(&id.0) {
            Some(process) => Some(MockBackend::log_path_for(process.pid)),
            None => None,
        }
    }

    /// The entries as they are handed to a caller, each with what is known
    /// of its process.
    pub fn list_tunnels(&self) -> (entries: Vec<TunnelEntry>)
        ensures
            entries@.len() == self.config().tunnels@.len(),
            forall|i: int|
                0 <= i < entries@.len() ==> (#[trigger] entries@[i]).runtime_state is Some
                    && self.status_holds(entries@[i].id, entries@[i].runtime_state->0)
                    && entries@[i] == with_status(
                    self.config().tunnels@[i],
                    entries@[i].runtime_state->0,
                ),
    {
        let mut entries: Vec<TunnelEntry> = Vec::new();
        let mut i: usize = 0;
        while i < self.config.tunnels.len()
            invariant
                i <= self.config.tunnels.len(),
                entries@.len() == i,
                forall|j: int|
                    0 <= j < i ==> (#[trigger] entries@[j]).runtime_state is Some
                        && self.status_holds(entries@[j].id, entries@[j].runtime_state->0)
                        && entries@[j] == with_status(
                        self.config().tunnels@[j],
                        entries@[j].runtime_state->0,
                    ),
            decreases self.config.tunnels.len() - i,
        {
            let tunnel = &self.config.tunnels[i];
            let status = self.get_tunnel_status(tunnel.id);
            let mut entry = tunnel.clone();
            entry.runtime_state = Some(status);
            entries.push(entry);
            i += 1;
        }
        entries
    }

    /// Entry `id` as it is handed to a caller.
    pub fn get_tunnel(&self, id: TunnelId) -> (entry: Option<TunnelEntry>)
        ensures
            match entry {
                Some(entry) => present(self.config().tunnels@, id) && entry.runtime_state is Some
                    && self.status_holds(id, entry.runtime_state->0) && entry == with_status(
                    entry_of(self.config().tunnels@, id),
                    entry.runtime_state->0,
                ),
                None => absent(self.config().tunnels@, id),
            },
    {
        match find_position(&self.config.tunnels, id) {
            Some(index) => {
                proof {
                    lemma_first_at_unique(self.config.tunnels@, id, index as int);
                }
                let tunnel = &self.config.tunnels[index];
                let status = self.get_tunnel_status(tunnel.id);
                let mut entry = tunnel.clone();
                entry.runtime_state = Some(status);
                Some(entry)
            },
            None => None,
        }
    }

    /// Stops every made-up process.
    pub fn shutdown(&mut self)
        requires
            old(self).wf(),
        ensures
            final(self).wf(),
            final(self).config() == old(self).config(),
            final(self).live() == Map::<u128, MockProcess>::empty(),
    {
        self.mock_processes.clear();
    }
}

} // verus!
