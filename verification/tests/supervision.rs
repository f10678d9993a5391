//! Scenario tests that drive the supervision state machine the way the
//! operating-system loop would.

use process_supervisor::supervisor::{Action, Event, Supervision, SupervisionError};

/// A short-lived process: it writes a little output, exits at once, and is
/// reaped with its own exit code, well before the deadline.
#[test]
fn scenario_quick_exit() {
    let mut s = Supervision::new();
    assert_eq!(s.step(Event::Spawned), Action::Wait);
    assert_eq!(s.step(Event::Data(b"hi\n".to_vec())), Action::Wait);
    assert_eq!(s.step(Event::Eof), Action::Reap);
    assert_eq!(s.step(Event::Reaped(0)), Action::Stop);
    assert!(s.is_finished());
    let outcome = s.result().unwrap();
    assert_eq!(outcome.exit_status, Some(0));
    assert_eq!(outcome.captured_output, b"hi\n".to_vec());
    assert!(!outcome.timed_out);
}

/// A process that sleeps far past the deadline: the deadline fires, the
/// machine orders the kill at once, and the run is reported as timed out.
#[test]
fn scenario_sleeper_killed() {
    let mut s = Supervision::new();
    assert_eq!(s.step(Event::Spawned), Action::Wait);
    assert_eq!(s.step(Event::DeadlineExpired), Action::Kill);
    assert_eq!(s.step(Event::Eof), Action::Reap);
    assert_eq!(s.step(Event::Reaped(9)), Action::Stop);
    let outcome = s.result().unwrap();
    assert!(outcome.timed_out);
    assert_eq!(outcome.exit_status, Some(9));
    assert!(outcome.captured_output.is_empty());
}

/// A process that writes more than a pipe buffer holds and then sleeps:
/// every chunk is drained while the timer runs, the deadline still fires,
/// and everything drained before the kill is kept.
#[test]
fn scenario_big_writer_killed() {
    let chunk = vec![0x61u8; 4096];
    let mut expected: Vec<u8> = Vec::new();
    let mut s = Supervision::new();
    assert_eq!(s.step(Event::Spawned), Action::Wait);
    for _ in 0..640 {
        assert_eq!(s.step(Event::Data(chunk.clone())), Action::Wait);
        expected.extend_from_slice(&chunk);
    }
    assert_eq!(s.step(Event::DeadlineExpired), Action::Kill);
    // What the pipe still buffered drains during the grace period.
    assert_eq!(s.step(Event::Data(chunk.clone())), Action::Wait);
    expected.extend_from_slice(&chunk);
    assert_eq!(s.step(Event::GraceExpired), Action::Reap);
    assert_eq!(s.step(Event::Reaped(9)), Action::Stop);
    let outcome = s.result().unwrap();
    assert!(outcome.timed_out);
    assert_eq!(outcome.captured_output, expected);
}

/// A refused spawn ends the run immediately, with no kill and no reap.
#[test]
fn scenario_spawn_refused() {
    let mut s = Supervision::new();
    assert_eq!(s.step(Event::SpawnRefused), Action::Stop);
    assert!(s.is_finished());
    assert!(matches!(s.result(), Err(SupervisionError::SpawnError)));
}

/// A read failure before any kill: the machine orders a defensive kill
/// plus cleanup, and the error carries the partial output.
#[test]
fn scenario_read_fault_mid_drain() {
    let mut s = Supervision::new();
    assert_eq!(s.step(Event::Spawned), Action::Wait);
    assert_eq!(s.step(Event::Data(b"par".to_vec())), Action::Wait);
    assert_eq!(s.step(Event::ReadFault), Action::KillThenReap);
    match s.result() {
        Err(SupervisionError::OutputReadError { partial }) => {
            assert_eq!(partial, b"par".to_vec());
        },
        other => panic!("unexpected result: {:?}", other),
    }
}

/// A read failure after the deadline: the kill was already issued, so the
/// machine asks only for the cleanup reap, never for a second kill.
#[test]
fn scenario_read_fault_after_kill() {
    let mut s = Supervision::new();
    assert_eq!(s.step(Event::Spawned), Action::Wait);
    assert_eq!(s.step(Event::DeadlineExpired), Action::Kill);
    assert_eq!(s.step(Event::ReadFault), Action::Reap);
    assert!(matches!(
        s.result(),
        Err(SupervisionError::OutputReadError { .. })
    ));
}

/// A naturally exited child whose status cannot be collected is fatal.
#[test]
fn scenario_reap_refused_after_exit() {
    let mut s = Supervision::new();
    assert_eq!(s.step(Event::Spawned), Action::Wait);
    assert_eq!(s.step(Event::Eof), Action::Reap);
    assert_eq!(s.step(Event::ReapRefused), Action::Stop);
    assert!(matches!(s.result(), Err(SupervisionError::ReapError)));
}

/// After a timeout, a failed reap still yields the timed-out outcome: the
/// exit status is simply absent.
#[test]
fn scenario_reap_refused_after_kill() {
    let mut s = Supervision::new();
    assert_eq!(s.step(Event::Spawned), Action::Wait);
    assert_eq!(s.step(Event::DeadlineExpired), Action::Kill);
    assert_eq!(s.step(Event::Eof), Action::Reap);
    assert_eq!(s.step(Event::ReapRefused), Action::Stop);
    let outcome = s.result().unwrap();
    assert!(outcome.timed_out);
    assert_eq!(outcome.exit_status, None);
}

/// The tie-break: a stream fully drained before the deadline is never
/// reported as timed out.
#[test]
fn scenario_drained_before_deadline() {
    let mut s = Supervision::new();
    assert_eq!(s.step(Event::Spawned), Action::Wait);
    assert_eq!(s.step(Event::Data(b"done\n".to_vec())), Action::Wait);
    assert_eq!(s.step(Event::Eof), Action::Reap);
    assert_eq!(s.step(Event::Reaped(0)), Action::Stop);
    let outcome = s.result().unwrap();
    assert!(!outcome.timed_out);
    assert_eq!(outcome.exit_status, Some(0));
}
