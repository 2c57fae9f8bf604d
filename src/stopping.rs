use vstd::prelude::*;

use crate::supervisor::ExitPoll;

verus! {

/// Pause between two exit checks while a stop waits for the worker.
pub const STOP_POLL_INTERVAL_MS: u64 = 200;

/// How long a stop waits for the worker to exit before it forces termination.
pub const STOP_GRACE_MS: u64 = 5000;

/// Pause between two liveness checks of the exit watcher.
pub const WATCH_INTERVAL_MS: u64 = 250;

/// What a stop does after one exit check of the worker it has taken out of the slot.
#[derive(Clone, Copy, Debug, PartialEq, Eq, Structural)]
pub enum StopStep {
    /// The worker has exited: the stop is done.
    Finished,
    /// Sleep one interval, after which `waited_ms` milliseconds have gone by.
    Sleep { waited_ms: u64 },
    /// Give up waiting and make one forced termination attempt.
    ForceKill,
}

/// Whether a stop that has waited `waited_ms` milliseconds checks the worker again.
pub fn grace_remaining(waited_ms: u64) -> (r: bool)
    ensures
        r == (waited_ms < STOP_GRACE_MS),
{
    waited_ms < STOP_GRACE_MS
}

/// The decision after an exit check made when `waited_ms` milliseconds of the grace
/// period have gone by. A failed check ends the wait.
pub fn stop_step(waited_ms: u64, poll: ExitPoll) -> (r: StopStep)
    requires
        waited_ms < STOP_GRACE_MS,
    ensures
        poll == ExitPoll::Exited ==> r == StopStep::Finished,
        poll == ExitPoll::Failed ==> r == StopStep::ForceKill,
        poll == ExitPoll::StillRunning ==> r == (StopStep::Sleep {
            waited_ms: (waited_ms + STOP_POLL_INTERVAL_MS) as u64,
        }),
{
    match poll {
        ExitPoll::Exited => StopStep::Finished,
        ExitPoll::Failed => StopStep::ForceKill,
        ExitPoll::StillRunning => StopStep::Sleep { waited_ms: waited_ms + STOP_POLL_INTERVAL_MS },
    }
}

} // verus!
