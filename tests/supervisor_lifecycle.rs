use dendrite_sidecar::resolve::{bundled_candidates, executable_file_name, first_existing};
use dendrite_sidecar::stopping::{
    grace_remaining, stop_step, StopStep, STOP_GRACE_MS, STOP_POLL_INTERVAL_MS,
};
use dendrite_sidecar::supervisor::{ExitPoll, Slot, Supervisor, SupervisorError, WatchStep};

fn running(pid: u32, now_ms: u64) -> (Supervisor<u32>, u64) {
    let mut s: Supervisor<u32> = Supervisor::new();
    assert_eq!(s.begin_start(), Ok(()));
    let instance = match s.finish_start(pid, pid, String::from("/opt/dendrite"), now_ms) {
        Ok(i) => i,
        Err(_) => panic!("slot was reserved"),
    };
    (s, instance)
}

#[test]
fn new_supervisor_is_stopped() {
    let s: Supervisor<u32> = Supervisor::new();
    assert!(matches!(s.slot, Slot::Empty));
    let st = s.status(1_000);
    assert_eq!(st.state, "stopped");
    assert_eq!(st.pid, None);
    assert_eq!(st.uptime_seconds, None);
    assert_eq!(st.client_port, None);
    assert_eq!(st.error_message, None);
}

#[test]
fn start_reports_running_with_pid_and_uptime() {
    let (s, instance) = running(42, 10_000);
    assert_eq!(instance, 1);
    assert!(matches!(s.slot, Slot::Running(_)));
    let st = s.status(13_500);
    assert_eq!(st.state, "running");
    assert_eq!(st.pid, Some(42));
    assert_eq!(st.uptime_seconds, Some(3));
    assert_eq!(s.status(9_000).uptime_seconds, None);
}

#[test]
fn start_while_running_is_refused() {
    let (mut s, instance) = running(42, 0);
    assert_eq!(s.begin_start(), Err(SupervisorError::AlreadyRunning));
    assert_eq!(s.status(0).pid, Some(42));
    assert_eq!(s.instance, instance);
}

#[test]
fn start_while_spawning_is_refused() {
    let mut s: Supervisor<u32> = Supervisor::new();
    assert_eq!(s.begin_start(), Ok(()));
    assert_eq!(s.begin_start(), Err(SupervisorError::AlreadyRunning));
    assert_eq!(s.status(0).state, "stopped");
}

#[test]
fn spawn_without_reservation_hands_handle_back() {
    let mut s: Supervisor<u32> = Supervisor::new();
    assert_eq!(s.finish_start(7, 7, String::from("dendrite"), 0), Err(7));
    assert!(matches!(s.slot, Slot::Empty));
    let (mut r, _) = running(1, 0);
    assert_eq!(r.finish_start(9, 9, String::from("dendrite"), 0), Err(9));
    assert_eq!(r.status(0).pid, Some(1));
}

#[test]
fn stop_without_worker_is_refused() {
    let mut s: Supervisor<u32> = Supervisor::new();
    assert!(matches!(s.take_worker(), Err(SupervisorError::NotRunning)));
    assert_eq!(s.status(0).state, "stopped");
}

#[test]
fn stop_twice_second_is_refused() {
    let (mut s, _) = running(42, 0);
    match s.take_worker() {
        Ok(w) => {
            assert_eq!(w.handle, 42);
            assert_eq!(w.pid, 42);
            assert_eq!(w.path, "/opt/dendrite");
        }
        Err(_) => panic!("worker was tracked"),
    }
    assert!(matches!(s.take_worker(), Err(SupervisorError::NotRunning)));
    assert_eq!(s.status(0).state, "stopped");
}

#[test]
fn spawn_failure_leaves_slot_empty() {
    let mut s: Supervisor<u32> = Supervisor::new();
    assert_eq!(s.begin_start(), Ok(()));
    assert_eq!(s.spawn_failed(), SupervisorError::SpawnFailure);
    assert!(matches!(s.slot, Slot::Empty));
    let st = s.status(0);
    assert_eq!(st.state, "stopped");
    assert_eq!(st.pid, None);
    assert_eq!(s.begin_start(), Ok(()));
}

#[test]
fn no_candidate_exists_falls_back_to_search_path() {
    assert_eq!(first_existing(&vec![false, false]), None);
    assert_eq!(first_existing(&vec![]), None);
    assert_eq!(first_existing(&vec![false, true]), Some(1));
    assert_eq!(first_existing(&vec![true, true]), Some(0));
}

#[test]
fn candidates_in_order() {
    let c = bundled_candidates(false);
    assert_eq!(c, vec![vec![String::from("sidecar"), String::from("dendrite")], vec![String::from("dendrite")]]);
    let w = bundled_candidates(true);
    assert_eq!(w[0][1], "dendrite.exe");
    assert_eq!(w[1][0], "dendrite.exe");
    assert_eq!(executable_file_name(false), "dendrite");
}

#[test]
fn watcher_clears_exited_worker() {
    let (mut s, instance) = running(42, 0);
    assert!(matches!(s.watch_step(instance, ExitPoll::StillRunning), WatchStep::KeepWatching));
    assert_eq!(s.status(0).state, "running");
    match s.watch_step(instance, ExitPoll::Exited) {
        WatchStep::Cleared(w) => assert_eq!(w.pid, 42),
        _ => panic!("worker had exited"),
    }
    let st = s.status(0);
    assert_eq!(st.state, "stopped");
    assert_eq!(st.pid, None);
    assert!(matches!(s.watch_step(instance, ExitPoll::Exited), WatchStep::Gone));
}

#[test]
fn watcher_failure_clears_worker() {
    let (mut s, instance) = running(5, 0);
    assert!(matches!(s.watch_step(instance, ExitPoll::Failed), WatchStep::Cleared(_)));
    assert!(matches!(s.slot, Slot::Empty));
}

#[test]
fn stale_watcher_leaves_new_worker_alone() {
    let (mut s, old) = running(5, 0);
    assert!(s.take_worker().is_ok());
    assert_eq!(s.begin_start(), Ok(()));
    let new = match s.finish_start(6, 6, String::from("dendrite"), 0) {
        Ok(i) => i,
        Err(_) => panic!("slot was reserved"),
    };
    assert_ne!(old, new);
    assert!(matches!(s.watch_step(old, ExitPoll::Exited), WatchStep::Gone));
    assert!(s.tracked_handle(old).is_none());
    assert_eq!(s.tracked_handle(new).map(|h| *h), Some(6));
    assert_eq!(s.status(0).pid, Some(6));
}

#[test]
fn first_port_wins() {
    let (mut s, instance) = running(1, 0);
    assert_eq!(s.record_stdout_line(instance, "Server listening on port 4321"), Some(4321));
    assert_eq!(s.status(0).client_port, Some(4321));
    assert_eq!(s.record_stdout_line(instance, "connected 17 peers on 9999"), None);
    assert_eq!(s.status(0).client_port, Some(4321));
}

#[test]
fn line_without_port_keeps_scanning() {
    let (mut s, instance) = running(1, 0);
    assert_eq!(s.record_stdout_line(instance, "booting"), None);
    assert_eq!(s.record_stdout_line(instance, "port 7000"), Some(7000));
    assert_eq!(s.detected_port, Some(7000));
}

#[test]
fn last_error_wins() {
    let (mut s, instance) = running(1, 0);
    assert!(s.record_stderr_line(instance, String::from("err A")));
    assert!(s.record_stderr_line(instance, String::from("err B")));
    assert_eq!(s.status(0).error_message, Some(String::from("err B")));
}

#[test]
fn lines_of_earlier_worker_are_ignored() {
    let (mut s, old) = running(1, 0);
    assert!(s.take_worker().is_ok());
    assert_eq!(s.begin_start(), Ok(()));
    let new = match s.finish_start(2, 2, String::from("dendrite"), 0) {
        Ok(i) => i,
        Err(_) => panic!("slot was reserved"),
    };
    assert!(!s.record_stderr_line(old, String::from("late")));
    assert_eq!(s.record_stdout_line(old, "port 1234"), None);
    assert_eq!(s.status(0).error_message, None);
    assert_eq!(s.status(0).client_port, None);
    assert_eq!(s.record_stdout_line(new, "port 1235"), Some(1235));
}

#[test]
fn new_start_resets_port_and_error() {
    let (mut s, instance) = running(1, 0);
    s.record_stdout_line(instance, "port 4000");
    s.record_stderr_line(instance, String::from("boom"));
    assert!(matches!(s.watch_step(instance, ExitPoll::Exited), WatchStep::Cleared(_)));
    let st = s.status(0);
    assert_eq!(st.client_port, Some(4000));
    assert_eq!(st.error_message, Some(String::from("boom")));
    assert_eq!(s.begin_start(), Ok(()));
    assert!(s.finish_start(2, 2, String::from("dendrite"), 0).is_ok());
    let st = s.status(0);
    assert_eq!(st.client_port, None);
    assert_eq!(st.error_message, None);
}

#[test]
fn stop_wait_sequence() {
    assert!(grace_remaining(0));
    assert!(grace_remaining(STOP_GRACE_MS - 1));
    assert!(!grace_remaining(STOP_GRACE_MS));
    assert_eq!(stop_step(0, ExitPoll::Exited), StopStep::Finished);
    assert_eq!(stop_step(0, ExitPoll::Failed), StopStep::ForceKill);
    assert_eq!(stop_step(4800, ExitPoll::StillRunning), StopStep::Sleep { waited_ms: 5000 });
    let mut waited = 0u64;
    let mut polls = 0u32;
    while grace_remaining(waited) {
        polls += 1;
        match stop_step(waited, ExitPoll::StillRunning) {
            StopStep::Sleep { waited_ms } => waited = waited_ms,
            _ => panic!("worker still running"),
        }
    }
    assert_eq!(polls as u64, STOP_GRACE_MS / STOP_POLL_INTERVAL_MS);
}

#[test]
fn error_messages() {
    assert_eq!(SupervisorError::AlreadyRunning.message(), "dendrite is already running");
    assert_eq!(SupervisorError::NotRunning.message(), "dendrite is not running");
    assert_eq!(SupervisorError::SpawnFailure.message(), "failed to spawn dendrite");
    assert_eq!(SupervisorError::LockFailure.message(), "failed to acquire sidecar lock");
    assert_eq!(SupervisorError::KillFailure.message(), "failed to kill dendrite");
    assert_eq!(SupervisorError::WaitFailure.message(), "error waiting for dendrite");
}
