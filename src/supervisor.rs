use vstd::prelude::*;

use crate::port::{find_port_in_text, port_in_text};

verus! {

/// What can go wrong when the supervisor is asked to do something.
#[derive(Clone, Copy, Debug, PartialEq, Eq, Structural)]
pub enum SupervisorError {
    AlreadyRunning,
    NotRunning,
    SpawnFailure,
    LockFailure,
    KillFailure,
    WaitFailure,
}

pub open spec fn error_text(e: SupervisorError) -> Seq<char> {
    match e {
        SupervisorError::AlreadyRunning => "dendrite is already running"@,
        SupervisorError::NotRunning => "dendrite is not running"@,
        SupervisorError::SpawnFailure => "failed to spawn dendrite"@,
        SupervisorError::LockFailure => "failed to acquire sidecar lock"@,
        SupervisorError::KillFailure => "failed to kill dendrite"@,
        SupervisorError::WaitFailure => "error waiting for dendrite"@,
    }
}

impl SupervisorError {
    /// The one-line text that callers of the control surface see.
    pub fn message(&self) -> (r: String)
        ensures
            r@ == error_text(*self),
    {
        match self {
            SupervisorError::AlreadyRunning => String::from_str("dendrite is already running"),
            SupervisorError::NotRunning => String::from_str("dendrite is not running"),
            SupervisorError::SpawnFailure => String::from_str("failed to spawn dendrite"),
            SupervisorError::LockFailure => String::from_str("failed to acquire sidecar lock"),
            SupervisorError::KillFailure => String::from_str("failed to kill dendrite"),
            SupervisorError::WaitFailure => String::from_str("error waiting for dendrite"),
        }
    }
}

/// The worker process under supervision. `H` is the caller's handle on the OS process.
pub struct TrackedWorker<H> {
    pub handle: H,
    pub pid: u32,
    pub path: String,
    /// Milliseconds since the Unix epoch at which the worker was spawned.
    pub started_at_ms: u64,
}

/// The supervisor slot. `Starting` reserves it while a spawn is under way, so that a
/// second start is refused before a second process can be created.
pub enum Slot<H> {
    Empty,
    Starting,
    Running(TrackedWorker<H>),
}

/// The single shared state of the supervisor: the slot, and what the output of the
/// most recently started worker has revealed.
pub struct Supervisor<H> {
    pub slot: Slot<H>,
    /// Identifies the most recent successful start; pumps and watchers carry it so that
    /// a late one of an earlier worker changes nothing.
    pub instance: u64,
    pub detected_port: Option<u16>,
    pub last_error: Option<String>,
}

/// The point-in-time status that callers receive; it shares nothing with the live state.
pub struct DendriteStatus {
    pub state: String,
    pub pid: Option<u32>,
    pub uptime_seconds: Option<u64>,
    pub client_port: Option<u16>,
    pub error_message: Option<String>,
}

/// How one liveness check of the worker came out.
#[derive(Clone, Copy, Debug, PartialEq, Eq, Structural)]
pub enum ExitPoll {
    StillRunning,
    Exited,
    Failed,
}

/// What the exit watcher does after one check.
pub enum WatchStep<H> {
    /// The worker is alive: sleep and check again.
    KeepWatching,
    /// The worker is gone and has been removed from the slot; here it is.
    Cleared(TrackedWorker<H>),
    /// The slot no longer tracks this watcher's worker: stop quietly.
    Gone,
}

pub open spec fn next_instance(i: u64) -> u64 {
    if i == u64::MAX {
        0
    } else {
        (i + 1) as u64
    }
}

/// The state after `w` was spawned: it is tracked under a fresh instance, and what an
/// earlier worker's output revealed is forgotten.
pub open spec fn started<H>(s: Supervisor<H>, w: TrackedWorker<H>) -> Supervisor<H> {
    Supervisor {
        slot: Slot::Running(w),
        instance: next_instance(s.instance),
        detected_port: None,
        last_error: None,
    }
}

/// The state with the slot emptied and everything else kept.
pub open spec fn cleared<H>(s: Supervisor<H>) -> Supervisor<H> {
    Supervisor { slot: Slot::Empty, ..s }
}

/// The state after a line of standard output of the worker `instance`.
pub open spec fn after_stdout<H>(s: Supervisor<H>, instance: u64, line: Seq<char>) -> Supervisor<H> {
    if instance == s.instance && s.detected_port is None && port_in_text(line) is Some {
        Supervisor { detected_port: port_in_text(line), ..s }
    } else {
        s
    }
}

/// The state after a line of standard error of the worker `instance`.
pub open spec fn after_stderr<H>(s: Supervisor<H>, instance: u64, line: String) -> Supervisor<H> {
    if instance == s.instance {
        Supervisor { last_error: Some(line), ..s }
    } else {
        s
    }
}

/// Everything that changes the supervisor state, as the operations below perform it.
pub enum Event<H> {
    StartRequested,
    Spawned(TrackedWorker<H>),
    SpawnFailed,
    StopRequested,
    Watched(u64, ExitPoll),
    StdoutLine(u64, Seq<char>),
    StderrLine(u64, String),
}

/// The state that follows `s` on event `e`.
pub open spec fn step<H>(s: Supervisor<H>, e: Event<H>) -> Supervisor<H> {
    match e {
        Event::StartRequested => if s.slot is Empty {
            Supervisor { slot: Slot::Starting, ..s }
        } else {
            s
        },
        Event::Spawned(w) => if s.slot is Starting {
            started(s, w)
        } else {
            s
        },
        Event::SpawnFailed => if s.slot is Starting {
            cleared(s)
        } else {
            s
        },
        Event::StopRequested => if s.slot is Running {
            cleared(s)
        } else {
            s
        },
        Event::Watched(instance, poll) => if s.slot is Running && s.instance == instance && poll
            != ExitPoll::StillRunning {
            cleared(s)
        } else {
            s
        },
        Event::StdoutLine(instance, line) => after_stdout(s, instance, line),
        Event::StderrLine(instance, line) => after_stderr(s, instance, line),
    }
}

pub open spec fn state_text<H>(s: Supervisor<H>) -> Seq<char> {
    if s.slot is Running {
        "running"@
    } else {
        "stopped"@
    }
}

pub open spec fn pid_of<H>(s: Supervisor<H>) -> Option<u32> {
    match s.slot {
        Slot::Running(w) => Some(w.pid),
        _ => None,
    }
}

pub open spec fn uptime_of<H>(s: Supervisor<H>, now_ms: u64) -> Option<u64> {
    match s.slot {
        Slot::Running(w) => if w.started_at_ms <= now_ms {
            Some(((now_ms - w.started_at_ms) / 1000) as u64)
        } else {
            None
        },
        _ => None,
    }
}

pub open spec fn error_view(e: Option<String>) -> Option<Seq<char>> {
    match e {
        Some(s) => Some(s@),
        None => None,
    }
}

impl<H> Supervisor<H> {
    /// A supervisor that tracks no worker.
    pub fn new() -> (r: Self)
        ensures
            r.slot is Empty,
            r.instance == 0,
            r.detected_port is None,
            r.last_error is None,
    {
        Supervisor { slot: Slot::Empty, instance: 0, detected_port: None, last_error: None }
    }

    /// Reserves the slot for a spawn. Refused, with nothing changed, while a worker is
    /// tracked or another spawn is under way.
    pub fn begin_start(&mut self) -> (r: Result<(), SupervisorError>)
        ensures
            *final(self) == step(*old(self), Event::StartRequested),
            old(self).slot is Empty ==> r is Ok && (*final(self) == Supervisor::<H> {
                slot: Slot::Starting,
                ..*old(self)
            }),
            !(old(self).slot is Empty) ==> r == Err::<(), SupervisorError>(
                SupervisorError::AlreadyRunning,
            ) && *final(self) == *old(self),
    {
        match self.slot {
            Slot::Empty => {
                self.slot = Slot::Starting;
                Ok(())
            },
            _ => Err(SupervisorError::AlreadyRunning),
        }
    }

    /// Stores a freshly spawned worker in the reserved slot, under a new instance, and
    /// clears the port and error of any earlier worker in the same step. Where the slot
    /// was not reserved, nothing changes and the handle comes back.
    pub fn finish_start(&mut self, handle: H, pid: u32, path: String, now_ms: u64) -> (r: Result<
        u64,
        H,
    >)
        ensures
            *final(self) == step(
                *old(self),
                Event::Spawned((TrackedWorker { handle, pid, path, started_at_ms: now_ms })),
            ),
            old(self).slot is Starting ==> r == Ok::<u64, H>(next_instance(old(self).instance))
                && *final(self) == started(
                *old(self),
                (TrackedWorker { handle, pid, path, started_at_ms: now_ms }),
            ),
            !(old(self).slot is Starting) ==> r == Err::<u64, H>(handle) && *final(self) == *old(
                self,
            ),
    {
        match self.slot {
            Slot::Starting => {
                let instance = if self.instance == u64::MAX {
                    0
                } else {
                    self.instance + 1
                };
                self.slot = Slot::Running(TrackedWorker { handle, pid, path, started_at_ms: now_ms });
                self.instance = instance;
                self.detected_port = None;
                self.last_error = None;
                Ok(instance)
            },
            _ => Err(handle),
        }
    }

    /// Releases the reservation after a spawn that failed; no worker is stored.
    pub fn spawn_failed(&mut self) -> (r: SupervisorError)
        ensures
            *final(self) == step(*old(self), Event::SpawnFailed),
            r == SupervisorError::SpawnFailure,
            old(self).slot is Starting ==> *final(self) == cleared(*old(self)),
            !(old(self).slot is Starting) ==> *final(self) == *old(self),
    {
        if let Slot::Starting = self.slot {
            self.slot = Slot::Empty;
        }
        SupervisorError::SpawnFailure
    }

    /// Takes the tracked worker out of the slot in one step, so that a second stop
    /// finds the slot empty.
    pub fn take_worker(&mut self) -> (r: Result<TrackedWorker<H>, SupervisorError>)
        ensures
            *final(self) == step(*old(self), Event::StopRequested),
            old(self).slot is Running ==> r == Ok::<TrackedWorker<H>, SupervisorError>(
                old(self).slot->Running_0,
            ) && *final(self) == cleared(*old(self)),
            !(old(self).slot is Running) ==> r == Err::<TrackedWorker<H>, SupervisorError>(
                SupervisorError::NotRunning,
            ) && *final(self) == *old(self),
    {
        if let Slot::Running(_) = self.slot {
            let mut slot = Slot::Empty;
            std::mem::swap(&mut slot, &mut self.slot);
            match slot {
                Slot::Running(w) => Ok(w),
                _ => Err(SupervisorError::NotRunning),
            }
        } else {
            Err(SupervisorError::NotRunning)
        }
    }

    /// The handle of the tracked worker, when it is the worker `instance`.
    pub fn tracked_handle(&mut self, instance: u64) -> (r: Option<&mut H>)
        ensures
            r is Some <==> (old(self).slot is Running && old(self).instance == instance),
            r matches Some(h) ==> *h == old(self).slot->Running_0.handle,
    {
        if self.instance != instance {
            return None;
        }
        match &mut self.slot {
            Slot::Running(w) => Some(&mut w.handle),
            _ => None,
        }
    }

    /// One step of the exit watcher of the worker `instance`, given how its liveness
    /// check came out. An exit, or a failed check, removes the worker from the slot.
    pub fn watch_step(&mut self, instance: u64, poll: ExitPoll) -> (r: WatchStep<H>)
        ensures
            *final(self) == step(*old(self), Event::Watched(instance, poll)),
            !(old(self).slot is Running && old(self).instance == instance) ==> r is Gone
                && *final(self) == *old(self),
            old(self).slot is Running && old(self).instance == instance && poll
                == ExitPoll::StillRunning ==> r is KeepWatching && *final(self) == *old(self),
            old(self).slot is Running && old(self).instance == instance && poll
                != ExitPoll::StillRunning ==> r == WatchStep::Cleared(old(self).slot->Running_0)
                && *final(self) == cleared(*old(self)),
    {
        let watched = match self.slot {
            Slot::Running(_) => self.instance == instance,
            _ => false,
        };
        if !watched {
            WatchStep::Gone
        } else if poll == ExitPoll::StillRunning {
            WatchStep::KeepWatching
        } else {
            let mut slot = Slot::Empty;
            std::mem::swap(&mut slot, &mut self.slot);
            match slot {
                Slot::Running(w) => WatchStep::Cleared(w),
                _ => WatchStep::Gone,
            }
        }
    }

    /// Scans a line of standard output of the worker `instance` for a port, unless one
    /// is already recorded for it. Returns the port when this line recorded it.
    pub fn record_stdout_line(&mut self, instance: u64, line: &str) -> (r: Option<u16>)
        ensures
            *final(self) == step(*old(self), Event::StdoutLine(instance, line@)),
            *final(self) == after_stdout(*old(self), instance, line@),
            r == (if instance == old(self).instance && old(self).detected_port is None {
                port_in_text(line@)
            } else {
                None
            }),
    {
        if instance != self.instance || self.detected_port.is_some() {
            return None;
        }
        let found = find_port_in_text(line);
        if let Some(p) = found {
            self.detected_port = Some(p);
        }
        found
    }

    /// Keeps a line of standard error of the worker `instance` as its last error,
    /// replacing the one before.
    pub fn record_stderr_line(&mut self, instance: u64, line: String) -> (r: bool)
        ensures
            *final(self) == step(*old(self), Event::StderrLine(instance, line)),
            r == (instance == old(self).instance),
            *final(self) == after_stderr(*old(self), instance, line),
    {
        if instance != self.instance {
            return false;
        }
        self.last_error = Some(line);
        true
    }

    /// A copy of the state at `now_ms` (milliseconds since the Unix epoch).
    pub fn status(&self, now_ms: u64) -> (r: DendriteStatus)
        ensures
            r.state@ == state_text(*self),
            r.pid == pid_of(*self),
            r.uptime_seconds == uptime_of(*self, now_ms),
            r.client_port == self.detected_port,
            error_view(r.error_message) == error_view(self.last_error),
    {
        let (state, pid, uptime_seconds) = match &self.slot {
            Slot::Running(w) => {
                let uptime = if w.started_at_ms <= now_ms {
                    Some((now_ms - w.started_at_ms) / 1000)
                } else {
                    None
                };
                (String::from_str("running"), Some(w.pid), uptime)
            },
            _ => (String::from_str("stopped"), None, None),
        };
        let error_message = match &self.last_error {
            Some(e) => Some(e.clone()),
            None => None,
        };
        DendriteStatus {
            state,
            pid,
            uptime_seconds,
            client_port: self.detected_port,
            error_message,
        }
    }
}

} // verus!
