use portaqemu::accel::{AccelAvailability, AccelChoice};
use portaqemu::argv::{build_argv, build_netdev, detect_disk_format, disk_format_for_ext, extension, file_name};
use portaqemu::config::{
    AccelConfig, AccelPreferred, NetworkConfig, PortForward, ResolvedConfig, ResolvedTerminalConfig,
    ResolvedVmConfig, ResolvedVscodeConfig, TerminalMode,
};
use portaqemu::hashing::{hash_argv, hex_lower};
use portaqemu::launch::{plan_fallback, plan_launch, Negotiation, NegotiationStep};

fn config(disk: &str, forwards: Vec<PortForward>) -> ResolvedConfig {
    ResolvedConfig {
        vm: ResolvedVmConfig { name: "devvm".to_string(), disk: disk.to_string(), memory_mb: 4096, cpus: 4 },
        network: NetworkConfig { ssh_host_port: 2222, forwards },
        accel: AccelConfig { preferred: AccelPreferred::Auto },
        terminal: ResolvedTerminalConfig {
            profile_name: "Dev".to_string(),
            icon: "C:\\icons\\vm.ico".to_string(),
            mode: TerminalMode::Ssh,
        },
        vscode: ResolvedVscodeConfig { ssh_user: "dev".to_string(), identity_file: "C:\\keys\\id".to_string() },
    }
}

#[test]
fn software_argv_is_exact() {
    let cfg = config("/vm/disk.qcow2", vec![]);
    let argv = build_argv(&cfg, "qemu", AccelChoice::Tcg);
    let expected = vec![
        "-name", "devvm", "-machine", "q35", "-accel", "tcg", "-cpu", "qemu64", "-m", "4096", "-smp", "4",
        "-rtc", "base=localtime", "-device", "qemu-xhci", "-device", "usb-tablet", "-drive",
        "file=/vm/disk.qcow2,if=virtio,format=qcow2", "-netdev", "user,id=n0,hostfwd=tcp:127.0.0.1:2222-:22",
        "-device", "virtio-net-pci,netdev=n0",
    ];
    assert_eq!(argv, expected);
}

#[test]
fn hardware_argv_uses_host_cpu() {
    let cfg = config("/vm/disk.qcow2", vec![]);
    let argv = build_argv(&cfg, "qemu", AccelChoice::Whpx);
    assert_eq!(argv[5], "whpx");
    assert_eq!(argv[7], "host");
}

#[test]
fn forwards_keep_their_order() {
    let fwds = vec![PortForward { host: 8080, guest: 80 }, PortForward { host: 5432, guest: 5432 }];
    assert_eq!(
        build_netdev(2222, &fwds),
        "user,id=n0,hostfwd=tcp:127.0.0.1:2222-:22,hostfwd=tcp:127.0.0.1:8080-:80,hostfwd=tcp:127.0.0.1:5432-:5432"
    );
}

#[test]
fn build_is_deterministic() {
    let cfg = config("/vm/disk.img", vec![PortForward { host: 8080, guest: 80 }]);
    let a = build_argv(&cfg, "qemu", AccelChoice::Tcg);
    let b = build_argv(&cfg, "qemu", AccelChoice::Tcg);
    assert_eq!(a, b);
    assert_eq!(hash_argv(&a), hash_argv(&b));
}

#[test]
fn disk_formats_follow_extension() {
    assert_eq!(detect_disk_format("/vm/disk.qcow2"), "qcow2");
    assert_eq!(detect_disk_format("/vm/disk.raw"), "raw");
    assert_eq!(detect_disk_format("/vm/disk.img"), "raw");
    assert_eq!(detect_disk_format("/vm/DISK.IMG"), "raw");
    assert_eq!(detect_disk_format("C:\\vm\\Disk.Raw"), "raw");
    assert_eq!(detect_disk_format("/vm/disk.vhdx"), "qcow2");
    assert_eq!(detect_disk_format("/vm/disk"), "qcow2");
    assert_eq!(detect_disk_format("/vm/.raw"), "qcow2");
    assert_eq!(disk_format_for_ext("img"), "raw");
    assert_eq!(disk_format_for_ext("IMG"), "qcow2");
}

#[test]
fn path_components() {
    assert_eq!(file_name("/a/b/c.tar.gz"), "c.tar.gz");
    assert_eq!(file_name("C:\\x\\y.raw"), "y.raw");
    assert_eq!(extension("/a/b/c.tar.gz"), "gz");
    assert_eq!(extension("/a/.hidden"), "");
    assert_eq!(extension("/a.d/file"), "");
    assert_eq!(extension("/a/file."), "");
}

#[test]
fn args_hash_is_sha256_of_framed_args() {
    let argv = vec!["-m".to_string(), "4096".to_string()];
    assert_eq!(hash_argv(&argv), "e1af3da44d07c3bfaf003dbdd46bd5ca45c75ae3a417012f023d14ea50a778a7");
    assert_eq!(hash_argv(&[]), "e3b0c44298fc1c149afbf4c8996fb92427ae41e4649b934ca495991b7852b855");
}

#[test]
fn hex_is_lower_case_two_digits_per_byte() {
    assert_eq!(hex_lower(&[0x00, 0x0f, 0xa0, 0xff]), "000fa0ff");
    assert_eq!(hex_lower(&[]), "");
}

#[test]
fn end_to_end_plan_without_hardware() {
    let cfg = config("/vm/disk.qcow2", vec![]);
    let plan = plan_launch(&cfg, "qemu", &AccelAvailability { whpx_available: false, tcg_available: true }).unwrap();
    assert_eq!(plan.accel, AccelChoice::Tcg);
    assert!(!plan.probe);
    assert!(plan.argv.contains(&"user,id=n0,hostfwd=tcp:127.0.0.1:2222-:22".to_string()));
}

#[test]
fn hardware_plan_is_probed_and_falls_back_once() {
    let cfg = config("/vm/disk.qcow2", vec![]);
    let plan = plan_launch(&cfg, "qemu", &AccelAvailability { whpx_available: true, tcg_available: true }).unwrap();
    assert_eq!(plan.accel, AccelChoice::Whpx);
    assert!(plan.probe);
    let fallback = plan_fallback(&cfg, "qemu");
    assert_eq!(fallback.accel, AccelChoice::Tcg);
    assert!(!fallback.probe);
    assert_eq!(fallback.argv, build_argv(&cfg, "qemu", AccelChoice::Tcg));
}

#[test]
fn negotiation_rolls_back_once() {
    let cfg = config("/vm/disk.qcow2", vec![]);
    let plan = plan_launch(&cfg, "qemu", &AccelAvailability { whpx_available: true, tcg_available: true }).unwrap();
    let n = Negotiation::start(&plan);
    assert!(n.probing);
    let (n, step) = n.on_poll(&cfg, "qemu", None, "", 100, 3000);
    assert!(matches!(step, NegotiationStep::Wait));
    let (n, step) = n.on_poll(&cfg, "qemu", Some(false), "WHPX: No accelerator found", 400, 3000);
    assert!(n.relaunched);
    assert_eq!(n.accel, AccelChoice::Tcg);
    match step {
        NegotiationStep::Relaunch(p) => {
            assert_eq!(p.accel, AccelChoice::Tcg);
            assert_eq!(p.argv[5], "tcg");
        }
        _ => panic!("expected a relaunch"),
    }
    let (_, step) = n.on_poll(&cfg, "qemu", Some(false), "no accelerator found", 100, 3000);
    assert!(matches!(step, NegotiationStep::Accept));
}

#[test]
fn negotiation_accepts_after_grace_period() {
    let cfg = config("/vm/disk.qcow2", vec![]);
    let plan = plan_launch(&cfg, "qemu", &AccelAvailability { whpx_available: true, tcg_available: true }).unwrap();
    let (n, step) = Negotiation::start(&plan).on_poll(&cfg, "qemu", None, "", 3000, 3000);
    assert!(matches!(step, NegotiationStep::Accept));
    assert!(!n.probing);
    assert!(!n.relaunched);
    assert_eq!(n.accel, AccelChoice::Whpx);
}
