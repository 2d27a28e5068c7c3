use portaqemu::accel::{AccelAvailability, AccelError};
use portaqemu::config::{
    AccelConfig, AccelPreferred, NetworkConfig, PortForward, ResolvedConfig, ResolvedTerminalConfig,
    ResolvedVmConfig, ResolvedVscodeConfig, TerminalMode,
};
use portaqemu::hashing::hash_argv;
use portaqemu::launch::SpawnError;
use portaqemu::net::NetError;
use portaqemu::session::{UpAction, UpError, UpEvent, UpOutcome, UpSession};
use portaqemu::state::{launched_state, status_of, VmState};

fn config(preferred: AccelPreferred) -> ResolvedConfig {
    ResolvedConfig {
        vm: ResolvedVmConfig { name: "devvm".to_string(), disk: "/vm/disk.qcow2".to_string(), memory_mb: 4096, cpus: 4 },
        network: NetworkConfig { ssh_host_port: 2222, forwards: vec![] },
        accel: AccelConfig { preferred },
        terminal: ResolvedTerminalConfig { profile_name: "Dev".to_string(), icon: "i".to_string(), mode: TerminalMode::Ssh },
        vscode: ResolvedVscodeConfig { ssh_user: "dev".to_string(), identity_file: "/k/id".to_string() },
    }
}

fn step(s: UpSession, e: UpEvent) -> (UpSession, UpAction) {
    s.step(e)
}

fn to_binary(no_wait: bool, preferred: AccelPreferred) -> UpSession {
    let (s, a) = UpSession::new(no_wait);
    assert!(matches!(a, UpAction::LoadState));
    let (s, a) = step(s, UpEvent::StateLoaded { state: VmState::default(), pid_alive: false });
    assert!(matches!(a, UpAction::LoadConfig));
    let (s, a) = step(s, UpEvent::ConfigLoaded(config(preferred)));
    match a {
        UpAction::ProbePorts(p) => assert_eq!(p, vec![2222]),
        _ => panic!("expected a port probe"),
    }
    let (s, a) = step(s, UpEvent::PortsProbed(vec![Ok(true)]));
    assert!(matches!(a, UpAction::LocateBinary));
    s
}

#[test]
fn end_to_end_software_launch() {
    let s = to_binary(true, AccelPreferred::Auto);
    let hw_absent = AccelAvailability { whpx_available: false, tcg_available: true };
    let (s, a) = step(s, UpEvent::BinaryFound { qemu_path: "qemu".to_string(), availability: hw_absent });
    let argv = match a {
        UpAction::Spawn(argv) => argv,
        _ => panic!("expected a spawn"),
    };
    assert_eq!(argv[5], "tcg");
    assert_eq!(argv[21], "user,id=n0,hostfwd=tcp:127.0.0.1:2222-:22");
    let (s, a) = step(s, UpEvent::Spawned(Ok(4321)));
    assert!(matches!(a, UpAction::ReadClock));
    let (s, a) = step(s, UpEvent::Clock("2024-05-01T10:00:00+00:00".to_string()));
    let saved = match a {
        UpAction::Save(state) => state,
        _ => panic!("expected a save"),
    };
    assert!(saved.running);
    assert_eq!(saved.qemu_pid, Some(4321));
    assert_eq!(saved.qemu_args_hash, Some(hash_argv(&argv)));
    let report = status_of(saved, true);
    assert!(report.running);
    assert_eq!(report.pid, Some(4321));
    let (_, a) = step(s, UpEvent::Saved);
    assert!(matches!(a, UpAction::Finish(Ok(UpOutcome::Started(4321)))));
}

#[test]
fn hardware_failure_rolls_back_once() {
    let s = to_binary(true, AccelPreferred::Auto);
    let both = AccelAvailability { whpx_available: true, tcg_available: true };
    let (s, a) = step(s, UpEvent::BinaryFound { qemu_path: "qemu".to_string(), availability: both });
    match a {
        UpAction::Spawn(argv) => assert_eq!(argv[5], "whpx"),
        _ => panic!("expected a spawn"),
    }
    let (s, a) = step(s, UpEvent::Spawned(Ok(10)));
    assert!(matches!(a, UpAction::Poll));
    let (s, a) = step(s, UpEvent::Polled { exited: None, diagnostics: String::new(), elapsed_ms: 100 });
    assert!(matches!(a, UpAction::Poll));
    let (s, a) = step(s, UpEvent::Polled {
        exited: Some(false),
        diagnostics: "WHPX: Failed to initialize WHPX".to_string(),
        elapsed_ms: 300,
    });
    match a {
        UpAction::Relaunch(argv) => assert_eq!(argv[5], "tcg"),
        _ => panic!("expected a relaunch"),
    }
    let (_, a) = step(s, UpEvent::Spawned(Ok(11)));
    assert!(matches!(a, UpAction::ReadClock));
}

#[test]
fn hardware_accepted_after_grace_period() {
    let s = to_binary(false, AccelPreferred::Auto);
    let both = AccelAvailability { whpx_available: true, tcg_available: true };
    let (s, _) = step(s, UpEvent::BinaryFound { qemu_path: "qemu".to_string(), availability: both });
    let (s, _) = step(s, UpEvent::Spawned(Ok(10)));
    let (s, a) = step(s, UpEvent::Polled { exited: None, diagnostics: String::new(), elapsed_ms: 3000 });
    assert!(matches!(a, UpAction::ReadClock));
    let (s, _) = step(s, UpEvent::Clock("t".to_string()));
    let (s, a) = step(s, UpEvent::Saved);
    assert!(matches!(a, UpAction::WaitReady(2222)));
    let (s, a) = step(s, UpEvent::ReadyPolled { connected: false, elapsed_ms: 500 });
    assert!(matches!(a, UpAction::WaitReady(2222)));
    let (_, a) = step(s, UpEvent::ReadyPolled { connected: false, elapsed_ms: 30000 });
    match a {
        UpAction::Finish(Err(UpError::NotReady { pid, error })) => {
            assert_eq!(pid, 10);
            assert_eq!(error, NetError::Timeout(2222));
        }
        _ => panic!("expected a readiness failure"),
    }
}

#[test]
fn live_vm_is_left_alone() {
    let (s, _) = UpSession::new(false);
    let state = launched_state(VmState::default(), 77, "t".to_string(), "h".to_string());
    let (_, a) = step(s, UpEvent::StateLoaded { state, pid_alive: true });
    assert!(matches!(a, UpAction::Finish(Ok(UpOutcome::AlreadyRunning(77)))));
}

#[test]
fn dead_recorded_vm_is_started_again() {
    let (s, _) = UpSession::new(false);
    let state = launched_state(VmState::default(), 77, "t".to_string(), "h".to_string());
    let (_, a) = step(s, UpEvent::StateLoaded { state, pid_alive: false });
    assert!(matches!(a, UpAction::LoadConfig));
}

#[test]
fn busy_port_stops_before_launch() {
    let (s, _) = UpSession::new(false);
    let (s, _) = step(s, UpEvent::StateLoaded { state: VmState::default(), pid_alive: false });
    let mut cfg = config(AccelPreferred::Auto);
    cfg.network.forwards.push(PortForward { host: 8080, guest: 80 });
    let (s, _) = step(s, UpEvent::ConfigLoaded(cfg));
    let (_, a) = step(s, UpEvent::PortsProbed(vec![Ok(true), Ok(false)]));
    match a {
        UpAction::Finish(Err(UpError::Ports(e))) => assert_eq!(e, NetError::PortInUse(8080)),
        _ => panic!("expected a port failure"),
    }
}

#[test]
fn explicit_hardware_preference_is_not_substituted() {
    let s = to_binary(false, AccelPreferred::Whpx);
    let sw_only = AccelAvailability { whpx_available: false, tcg_available: true };
    let (_, a) = step(s, UpEvent::BinaryFound { qemu_path: "qemu".to_string(), availability: sw_only });
    assert!(matches!(a, UpAction::Finish(Err(UpError::Accel(AccelError::WhpxUnavailable)))));
}

#[test]
fn spawn_failure_is_fatal() {
    let s = to_binary(false, AccelPreferred::Tcg);
    let sw_only = AccelAvailability { whpx_available: false, tcg_available: true };
    let (s, _) = step(s, UpEvent::BinaryFound { qemu_path: "qemu".to_string(), availability: sw_only });
    let (_, a) = step(s, UpEvent::Spawned(Err(SpawnError::SpawnFailed)));
    assert!(matches!(a, UpAction::Finish(Err(UpError::Spawn(SpawnError::SpawnFailed)))));
}

#[test]
fn out_of_order_event_ends_session() {
    let (s, _) = UpSession::new(false);
    let (_, a) = step(s, UpEvent::Saved);
    assert!(matches!(a, UpAction::Finish(Err(UpError::OutOfOrder))));
}

#[test]
fn clean_exit_in_grace_period_is_not_rolled_back() {
    let s = to_binary(true, AccelPreferred::Auto);
    let both = AccelAvailability { whpx_available: true, tcg_available: true };
    let (s, _) = step(s, UpEvent::BinaryFound { qemu_path: "qemu".to_string(), availability: both });
    let (s, _) = step(s, UpEvent::Spawned(Ok(10)));
    let (_, a) = step(s, UpEvent::Polled { exited: Some(true), diagnostics: "whpx".to_string(), elapsed_ms: 200 });
    assert!(matches!(a, UpAction::ReadClock));
}
