use portaqemu::launch::{temp_file_name, terminate_precheck, ProcessError};
use portaqemu::lock::{acquire_action, lock_contents, parse_pid, Lock, LockAction, LockError};
use portaqemu::text::decimal;

#[test]
fn lock_held_by_live_process_refuses() {
    let text = lock_contents(4242);
    assert_eq!(text, "4242");
    let holder = parse_pid(&text);
    assert_eq!(holder, Some(4242));
    assert_eq!(acquire_action(true, holder, true), Err(LockError::AlreadyLocked));
}

#[test]
fn released_lock_is_taken_again() {
    assert_eq!(acquire_action(false, None, false), Ok(LockAction::Create));
}

#[test]
fn stale_lock_is_reclaimed() {
    assert_eq!(acquire_action(true, Some(99999), false), Ok(LockAction::ReclaimThenCreate));
    assert_eq!(acquire_action(true, parse_pid("garbage"), false), Ok(LockAction::ReclaimThenCreate));
}

#[test]
fn pid_parsing_edges() {
    assert_eq!(parse_pid("  123\n"), Some(123));
    assert_eq!(parse_pid("+7"), Some(7));
    assert_eq!(parse_pid("4294967295"), Some(u32::MAX));
    assert_eq!(parse_pid("4294967296"), None);
    assert_eq!(parse_pid(""), None);
    assert_eq!(parse_pid("+"), None);
    assert_eq!(parse_pid("12a"), None);
    assert_eq!(parse_pid("-1"), None);
}

#[test]
fn decimal_notation() {
    assert_eq!(decimal(0), "0");
    assert_eq!(decimal(10), "10");
    assert_eq!(decimal(u64::MAX), "18446744073709551615");
}

#[test]
fn lock_keeps_its_path() {
    let lock = Lock::held_at("/r/config/portaqemu.lock".to_string());
    assert_eq!(lock.path, "/r/config/portaqemu.lock");
}

#[test]
fn terminating_dead_process_is_not_running() {
    assert_eq!(terminate_precheck(5, false), Err(ProcessError::NotRunning(5)));
    assert_eq!(terminate_precheck(5, true), Ok(()));
}

#[test]
fn temp_file_sits_beside_target() {
    assert_eq!(temp_file_name(Some("state.json")), ".state.json.tmp");
    assert_eq!(temp_file_name(None), ".temp.tmp");
}
