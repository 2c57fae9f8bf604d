use vstd::prelude::*;

use crate::port::port_in_text;
use crate::supervisor::{
    after_stderr, after_stdout, pid_of, started, state_text, step, Event, ExitPoll,
    Supervisor, TrackedWorker,
};

verus! {

/// The state after the events `events`, in order, starting from `s`.
pub open spec fn run<H>(s: Supervisor<H>, events: Seq<Event<H>>) -> Supervisor<H>
    decreases events.len(),
{
    if events.len() == 0 {
        s
    } else {
        step(run(s, events.drop_last()), events.last())
    }
}

/// No event puts a worker in place of the one that is tracked: it stays, or the slot
/// is emptied.
pub proof fn lemma_tracked_worker_kept_or_released<H>(s: Supervisor<H>, e: Event<H>)
    requires
        s.slot is Running,
    ensures
        step(s, e).slot == s.slot || step(s, e).slot is Empty,
{
}

/// Whatever the interleaving of starts, spawns, stops, exit checks and output lines,
/// a tracked worker is still the one in the slot, or the slot was empty at some point
/// since: a second worker is never stored beside or over a live one.
pub proof fn lemma_single_worker<H>(s: Supervisor<H>, events: Seq<Event<H>>)
    requires
        s.slot is Running,
    ensures
        run(s, events).slot == s.slot || exists|k: int|
            1 <= k <= events.len() && (#[trigger] run(s, events.take(k))).slot is Empty,
    decreases events.len(),
{
    if events.len() > 0 {
        let prefix = events.drop_last();
        lemma_single_worker(s, prefix);
        let t = run(s, prefix);
        assert(events.take(events.len() as int) =~= events);
        if t.slot == s.slot {
            lemma_tracked_worker_kept_or_released(t, events.last());
        } else {
            let k = choose|k: int|
                1 <= k <= prefix.len() && (#[trigger] run(s, prefix.take(k))).slot is Empty;
            assert(prefix.take(k) =~= events.take(k));
        }
    }
}

/// A start request while a worker is tracked changes nothing.
pub proof fn lemma_start_refused_while_running<H>(s: Supervisor<H>)
    requires
        s.slot is Running,
    ensures
        step(s, Event::StartRequested) == s,
{
}

/// A stop request while no worker is tracked changes nothing.
pub proof fn lemma_stop_refused_while_idle<H>(s: Supervisor<H>)
    requires
        !(s.slot is Running),
    ensures
        step(s, Event::StopRequested) == s,
{
}

/// After a successful start the status reports the worker running under its pid; once
/// its watcher sees it exit, the status reports stopped with no pid.
pub proof fn lemma_status_follows_worker<H>(s: Supervisor<H>, w: TrackedWorker<H>, poll: ExitPoll)
    requires
        s.slot is Starting,
        poll != ExitPoll::StillRunning,
    ensures
        state_text(step(s, Event::Spawned(w))) == "running"@,
        pid_of(step(s, Event::Spawned(w))) == Some(w.pid),
        state_text(step(step(s, Event::Spawned(w)), Event::Watched(started(s, w).instance, poll)))
            == "stopped"@,
        pid_of(step(step(s, Event::Spawned(w)), Event::Watched(started(s, w).instance, poll)))
            is None,
{
}

/// The first port found in the output of a worker stays recorded: a later line, whatever
/// number it holds, does not replace it.
pub proof fn lemma_first_port_wins<H>(s: Supervisor<H>, instance: u64, a: Seq<char>, b: Seq<char>)
    requires
        instance == s.instance,
        s.detected_port is None,
        port_in_text(a) is Some,
    ensures
        after_stdout(s, instance, a).detected_port == port_in_text(a),
        after_stdout(after_stdout(s, instance, a), instance, b).detected_port == port_in_text(a),
{
}

/// The last error is the most recent line of standard error.
pub proof fn lemma_last_error_wins<H>(s: Supervisor<H>, instance: u64, a: String, b: String)
    requires
        instance == s.instance,
    ensures
        after_stderr(after_stderr(s, instance, a), instance, b).last_error == Some(b),
{
}

/// Of two stops in a row, the first releases the worker and the second finds nothing to
/// stop.
pub proof fn lemma_second_stop_finds_nothing<H>(s: Supervisor<H>)
    requires
        s.slot is Running,
    ensures
        step(s, Event::StopRequested).slot is Empty,
        step(step(s, Event::StopRequested), Event::StopRequested) == step(
            s,
            Event::StopRequested,
        ),
{
}

/// A start whose spawn fails leaves the slot empty and the status stopped.
pub proof fn lemma_failed_spawn_leaves_slot_empty<H>(s: Supervisor<H>)
    requires
        s.slot is Empty,
    ensures
        step(step(s, Event::StartRequested), Event::SpawnFailed).slot is Empty,
        state_text(step(step(s, Event::StartRequested), Event::SpawnFailed)) == "stopped"@,
{
}

} // verus!
