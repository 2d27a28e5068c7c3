use portaqemu::accel::AccelAvailability;
use portaqemu::config::{
    AccelConfig, AccelPreferred, NetworkConfig, PortForward, ResolvedConfig, ResolvedTerminalConfig,
    ResolvedVmConfig, ResolvedVscodeConfig, TerminalMode,
};
use portaqemu::doctor::{
    check_acceleration, check_autostart, check_ports, check_qemu_binary, check_ssh_key, check_terminal_fragment,
    format_port_list, run_all_checks, CheckStatus, Observations,
};
use portaqemu::net::NetError;
use portaqemu::report::{doctor_report, format_report_human, summarize, CheckResultJson};

fn config(preferred: AccelPreferred) -> ResolvedConfig {
    ResolvedConfig {
        vm: ResolvedVmConfig { name: "devvm".to_string(), disk: "/vm/disk.qcow2".to_string(), memory_mb: 4096, cpus: 4 },
        network: NetworkConfig { ssh_host_port: 2222, forwards: vec![PortForward { host: 8080, guest: 80 }] },
        accel: AccelConfig { preferred },
        terminal: ResolvedTerminalConfig { profile_name: "Dev".to_string(), icon: "i".to_string(), mode: TerminalMode::Ssh },
        vscode: ResolvedVscodeConfig { ssh_user: "dev".to_string(), identity_file: "/k/id".to_string() },
    }
}

#[test]
fn qemu_check() {
    let found = check_qemu_binary(Some("/r/bin/qemu.exe"));
    assert_eq!(found.status, CheckStatus::Pass);
    assert_eq!(found.message, "QEMU found: /r/bin/qemu.exe");
    let missing = check_qemu_binary(None);
    assert_eq!(missing.status, CheckStatus::Fail);
    assert!(missing.hint.is_some());
}

#[test]
fn acceleration_check() {
    let cfg = config(AccelPreferred::Whpx);
    let a = AccelAvailability { whpx_available: false, tcg_available: true };
    assert_eq!(check_acceleration(&cfg, Some(a)).status, CheckStatus::Warn);
    assert_eq!(check_acceleration(&cfg, None).status, CheckStatus::Fail);
    let auto = config(AccelPreferred::Auto);
    assert_eq!(check_acceleration(&auto, Some(a)).message, "Acceleration available: TCG");
}

#[test]
fn ports_check_lists_busy_ports() {
    let cfg = config(AccelPreferred::Auto);
    let r = check_ports(&cfg, &vec![Ok(false), Ok(false)]);
    assert_eq!(r.status, CheckStatus::Warn);
    assert_eq!(r.message, "Ports in use: [2222, 8080]");
    let r = check_ports(&cfg, &vec![Ok(true), Err(NetError::Io("x".to_string()))]);
    assert_eq!(r.status, CheckStatus::Pass);
    assert_eq!(format_port_list(&vec![]), "[]");
}

#[test]
fn simple_checks() {
    let cfg = config(AccelPreferred::Auto);
    assert_eq!(check_ssh_key(&cfg, false).message, "SSH key not found: /k/id");
    assert_eq!(check_terminal_fragment("/f/x.json", true).message, "Terminal fragment installed: /f/x.json");
    assert_eq!(check_autostart(false).status, CheckStatus::Warn);
}

#[test]
fn all_checks_and_report() {
    let cfg = config(AccelPreferred::Auto);
    let obs = Observations {
        qemu_path: None,
        availability: None,
        disk_exists: true,
        port_probes: vec![Ok(true), Ok(true)],
        ssh_key_exists: true,
        fragment_file: "/f/devvm.json".to_string(),
        fragment_exists: false,
        autostart_enabled: true,
    };
    let results = run_all_checks(&cfg, &obs);
    assert_eq!(results.len(), 7);
    let s = summarize(&results);
    assert_eq!((s.pass, s.warn, s.fail), (4, 1, 2));
    let report = doctor_report(&results);
    assert_eq!(report.checks[0].status, "fail");
    assert_eq!(report.summary, s);
    let json = CheckResultJson::from_check(&results[5]);
    assert_eq!(json.id, "terminal_fragment");
    assert_eq!(json.status, "warn");
    let text = format_report_human(&results[..1]);
    assert_eq!(
        text,
        "PortaQEMU Diagnostics\n=====================\n\n\u{2717} qemu_binary: QEMU binary not found\n  Hint: Install QEMU or place qemu-system-x86_64.exe in bin/\n\nSummary: 0 pass, 0 warn, 1 fail\n"
    );
}

#[test]
fn report_keeps_hints() {
    let results = vec![check_qemu_binary(None), check_qemu_binary(Some("/q"))];
    let report = doctor_report(&results);
    assert_eq!(report.checks[0].hint.as_deref(), Some("Install QEMU or place qemu-system-x86_64.exe in bin/"));
    assert_eq!(report.checks[1].hint, None);
    assert_eq!(report.checks[1].message, "QEMU found: /q");
}
