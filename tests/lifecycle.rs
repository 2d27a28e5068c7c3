use portaqemu::net::{check_ports_available, wait_step, NetError, WaitStep};
use portaqemu::state::{already_running, down_action, launched_state, status_of, stopped_state, DownAction, VmState};

#[test]
fn default_state_is_stopped_and_empty() {
    let s = VmState::default();
    assert!(!s.running);
    assert_eq!(s.qemu_pid, None);
    assert_eq!(s.started_at, None);
    assert_eq!(s.qemu_args_hash, None);
    assert_eq!(s.last_error, None);
}

#[test]
fn status_down_status_sequence() {
    let mut prev = VmState::default();
    prev.last_error = Some("old failure".to_string());
    let launched = launched_state(prev, 777, "2024-01-01T00:00:00+00:00".to_string(), "ab".to_string());
    assert!(launched.running);
    assert_eq!(launched.last_error, None);
    let st = status_of(launched.clone(), true);
    assert!(st.running);
    assert_eq!(st.pid, Some(777));
    assert_eq!(st.started_at.as_deref(), Some("2024-01-01T00:00:00+00:00"));
    assert_eq!(down_action(&launched, true), DownAction::Terminate(777));
    let stopped = stopped_state(launched);
    let st2 = status_of(stopped.clone(), false);
    assert!(!st2.running);
    assert_eq!(st2.pid, None);
    assert_eq!(stopped.qemu_args_hash.as_deref(), Some("ab"));
}

#[test]
fn status_reverifies_liveness() {
    let launched = launched_state(VmState::default(), 9, "t".to_string(), "h".to_string());
    let st = status_of(launched, false);
    assert!(!st.running);
    assert_eq!(st.pid, Some(9));
}

#[test]
fn down_actions() {
    let idle = VmState::default();
    assert_eq!(down_action(&idle, true), DownAction::NothingRunning);
    let launched = launched_state(VmState::default(), 9, "t".to_string(), "h".to_string());
    assert_eq!(down_action(&launched, false), DownAction::Forget(Some(9)));
    let mut odd = VmState::default();
    odd.running = true;
    assert_eq!(down_action(&odd, true), DownAction::Forget(None));
}

#[test]
fn up_skips_only_a_live_running_vm() {
    let launched = launched_state(VmState::default(), 9, "t".to_string(), "h".to_string());
    assert!(already_running(&launched, true));
    assert!(!already_running(&launched, false));
    assert!(!already_running(&VmState::default(), true));
}

#[test]
fn port_checks() {
    assert_eq!(check_ports_available(&[2222, 8080], vec![Ok(true), Ok(true)]), Ok(vec![]));
    assert_eq!(
        check_ports_available(&[2222, 8080, 9000], vec![Ok(true), Ok(false), Ok(false)]),
        Err(NetError::PortInUse(8080))
    );
    assert_eq!(
        check_ports_available(&[2222, 8080], vec![Ok(false), Err(NetError::Io("denied".to_string()))]),
        Err(NetError::Io("denied".to_string()))
    );
    assert_eq!(check_ports_available(&[], vec![]), Ok(vec![]));
}

#[test]
fn readiness_wait_steps() {
    assert_eq!(wait_step(2222, true, 50000, 30000), WaitStep::Ready);
    assert_eq!(wait_step(2222, false, 100, 30000), WaitStep::Retry);
    assert_eq!(wait_step(2222, false, 30000, 30000), WaitStep::Fail(NetError::Timeout(2222)));
}
