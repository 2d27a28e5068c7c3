use vstd::prelude::*;
use vstd::string::*;
use crate::accel::{choose_accel, chosen, AccelAvailability, AccelChoice};
use crate::config::{AccelPreferred, ResolvedConfig};
use crate::net::{host_ports, ports_to_check, NetError};
use crate::text::{dec_str, push_decimal};

verus! {

/// The outcome of one diagnostic check.
#[derive(Debug, Clone, Copy, PartialEq, Eq, Structural)]
pub enum CheckStatus {
    Pass,
    Warn,
    Fail,
}

/// One diagnostic check's finding.
#[derive(Debug, Clone)]
pub struct CheckResult {
    pub id: &'static str,
    pub status: CheckStatus,
    pub message: String,
    pub hint: Option<String>,
}

/// What the diagnostics observed of the machine, gathered by the caller.
#[derive(Debug, Clone)]
pub struct Observations {
    /// Where the virtualization binary was found, if anywhere.
    pub qemu_path: Option<String>,
    /// The backends it reported, if it was found.
    pub availability: Option<AccelAvailability>,
    pub disk_exists: bool,
    /// The bind probe of each host port, in the order of `ports_to_check`.
    pub port_probes: Vec<Result<bool, NetError>>,
    pub ssh_key_exists: bool,
    pub fragment_file: String,
    pub fragment_exists: bool,
    pub autostart_enabled: bool,
}

/// Whether `r` has the given id, status, message and hint.
pub open spec fn is_result(r: CheckResult, id: Seq<char>, status: CheckStatus, msg: Seq<char>, hint: Option<Seq<char>>) -> bool {
    &&& r.id@ == id
    &&& r.status == status
    &&& r.message@ == msg
    &&& match hint {
        Some(h) => r.hint is Some && r.hint->Some_0@ == h,
        None => r.hint is None,
    }
}

fn result(id: &'static str, status: CheckStatus, message: String, hint: Option<&str>) -> (r: CheckResult)
    ensures
        r.id == id,
        r.status == status,
        r.message == message,
        match hint {
            Some(h) => r.hint is Some && r.hint->Some_0@ == h@,
            None => r.hint is None,
        },
{
    let hint = match hint {
        Some(h) => Some(String::from_str(h)),
        None => None,
    };
    CheckResult { id, status, message, hint }
}

fn text(prefix: &str, rest: &str) -> (r: String)
    ensures
        r@ == prefix@ + rest@,
{
    let mut s = String::from_str(prefix);
    s.append(rest);
    s
}

/// The finding on the virtualization binary, found at `located` or not.
pub open spec fn qemu_check_is(r: CheckResult, located: Option<Seq<char>>) -> bool {
    match located {
        Some(p) => is_result(r, "qemu_binary"@, CheckStatus::Pass, "QEMU found: "@ + p, None),
        None => is_result(r, "qemu_binary"@, CheckStatus::Fail, "QEMU binary not found"@,
            Some("Install QEMU or place qemu-system-x86_64.exe in bin/"@)),
    }
}

/// Whether the virtualization binary was found.
pub fn check_qemu_binary(located: Option<&str>) -> (r: CheckResult)
    ensures
        qemu_check_is(r, match located {
            Some(p) => Some(p@),
            None => None,
        }),
{
    match located {
        Some(p) => result("qemu_binary", CheckStatus::Pass, text("QEMU found: ", p), None),
        None => result("qemu_binary", CheckStatus::Fail, String::from_str("QEMU binary not found"),
            Some("Install QEMU or place qemu-system-x86_64.exe in bin/")),
    }
}

/// The finding on the disk image at `disk`.
pub open spec fn disk_check_is(r: CheckResult, disk: Seq<char>, exists: bool) -> bool {
    if exists {
        is_result(r, "disk_image"@, CheckStatus::Pass, "Disk image found: "@ + disk, None)
    } else {
        is_result(r, "disk_image"@, CheckStatus::Fail, "Disk image not found: "@ + disk,
            Some("Create or download a VM disk image"@))
    }
}

/// Whether the disk image exists.
pub fn check_disk_image(config: &ResolvedConfig, disk_exists: bool) -> (r: CheckResult)
    ensures
        disk_check_is(r, config.vm.disk@, disk_exists),
{
    if disk_exists {
        result("disk_image", CheckStatus::Pass, text("Disk image found: ", config.vm.disk.as_str()), None)
    } else {
        result("disk_image", CheckStatus::Fail, text("Disk image not found: ", config.vm.disk.as_str()),
            Some("Create or download a VM disk image"))
    }
}

/// The finding on acceleration for a preference and what was reported.
pub open spec fn accel_check_is(r: CheckResult, preferred: AccelPreferred, availability: Option<AccelAvailability>) -> bool {
    match availability {
        None => is_result(r, "acceleration"@, CheckStatus::Fail, "Cannot check acceleration: QEMU not found"@, None),
        Some(a) => match chosen(preferred, a) {
            Ok(AccelChoice::Whpx) => is_result(r, "acceleration"@, CheckStatus::Pass, "Acceleration available: WHPX"@, None),
            Ok(AccelChoice::Tcg) => is_result(r, "acceleration"@, CheckStatus::Pass, "Acceleration available: TCG"@, None),
            Err(_) => is_result(r, "acceleration"@, CheckStatus::Warn,
                "Preferred acceleration not available, will use fallback"@,
                Some("Consider installing WHPX or using TCG"@)),
        },
    }
}

/// Whether the preferred backend can be had. `availability` is `None` where
/// the binary was not found.
pub fn check_acceleration(config: &ResolvedConfig, availability: Option<AccelAvailability>) -> (r: CheckResult)
    ensures
        accel_check_is(r, config.accel.preferred, availability),
{
    match availability {
        None => result("acceleration", CheckStatus::Fail,
            String::from_str("Cannot check acceleration: QEMU not found"), None),
        Some(a) => match choose_accel(config.accel.preferred, &a) {
            Ok(AccelChoice::Whpx) => result("acceleration", CheckStatus::Pass,
                String::from_str("Acceleration available: WHPX"), None),
            Ok(AccelChoice::Tcg) => result("acceleration", CheckStatus::Pass,
                String::from_str("Acceleration available: TCG"), None),
            Err(_) => result("acceleration", CheckStatus::Warn,
                String::from_str("Preferred acceleration not available, will use fallback"),
                Some("Consider installing WHPX or using TCG")),
        },
    }
}

/// The ports whose probe answered "in use", in order; probe errors are
/// passed over.
pub open spec fn ports_in_use(ports: Seq<u16>, probes: Seq<Result<bool, NetError>>) -> Seq<u16>
    decreases ports.len(),
{
    if ports.len() == 0 {
        Seq::empty()
    } else {
        let rest = ports_in_use(ports.drop_last(), probes.subrange(0, ports.len() - 1));
        if probes[ports.len() - 1] == Ok::<bool, NetError>(false) {
            rest.push(ports.last())
        } else {
            rest
        }
    }
}

/// A list of ports as `[a, b, c]`.
pub open spec fn port_list_text(ports: Seq<u16>) -> Seq<char> {
    "["@ + port_items(ports) + "]"@
}

/// The ports in decimal, separated by `, `.
pub open spec fn port_items(ports: Seq<u16>) -> Seq<char>
    decreases ports.len(),
{
    if ports.len() == 0 {
        Seq::empty()
    } else if ports.len() == 1 {
        dec_str(ports[0] as nat)
    } else {
        port_items(ports.drop_last()) + ", "@ + dec_str(ports.last() as nat)
    }
}

/// Writes a list of ports as `[a, b, c]`.
pub fn format_port_list(ports: &Vec<u16>) -> (r: String)
    ensures
        r@ == port_list_text(ports@),
{
    let mut s = String::from_str("[");
    let mut i: usize = 0;
    while i < ports.len()
        invariant
            i <= ports@.len(),
            s@ == "["@ + port_items(ports@.subrange(0, i as int)),
        decreases ports@.len() - i,
    {
        let ghost before = s@;
        if i > 0 {
            s.append(", ");
        }
        push_decimal(&mut s, ports[i] as u64);
        let ghost done = ports@.subrange(0, i + 1);
        assert(done.drop_last() =~= ports@.subrange(0, i as int));
        if i == 0 {
            assert(port_items(ports@.subrange(0, 0)) =~= Seq::<char>::empty());
            assert(s@ =~= "["@ + port_items(done));
        } else {
            assert(s@ =~= "["@ + port_items(done));
        }
        i = i + 1;
    }
    assert(ports@.subrange(0, i as int) =~= ports@);
    s.append("]");
    s
}

/// The finding on the host ports, given those found in use.
pub open spec fn ports_check_is(r: CheckResult, in_use: Seq<u16>) -> bool {
    if in_use.len() == 0 {
        is_result(r, "ports"@, CheckStatus::Pass, "All required ports are available"@, None)
    } else {
        is_result(r, "ports"@, CheckStatus::Warn, "Ports in use: "@ + port_list_text(in_use),
            Some("Stop conflicting services or change port configuration"@))
    }
}

/// Whether the host ports are free. `probes` holds the bind probe of each
/// port of `ports_to_check(config)`, in order.
pub fn check_ports(config: &ResolvedConfig, probes: &Vec<Result<bool, NetError>>) -> (r: CheckResult)
    requires
        probes@.len() == host_ports(*config).len(),
    ensures
        ports_check_is(r, ports_in_use(host_ports(*config), probes@)),
{
    let ports = ports_to_check(config);
    let mut in_use: Vec<u16> = Vec::new();
    let mut i: usize = 0;
    while i < ports.len()
        invariant
            i <= ports@.len(),
            ports@ == host_ports(*config),
            probes@.len() == ports@.len(),
            in_use@ == ports_in_use(ports@.subrange(0, i as int), probes@.subrange(0, i as int)),
        decreases ports@.len() - i,
    {
        let ghost ps = ports@.subrange(0, i + 1);
        let ghost rs = probes@.subrange(0, i + 1);
        assert(ps.drop_last() =~= ports@.subrange(0, i as int));
        assert(rs.subrange(0, i as int) =~= probes@.subrange(0, i as int));
        match &probes[i] {
            Ok(false) => {
                in_use.push(ports[i]);
            },
            _ => {},
        }
        i = i + 1;
    }
    assert(ports@.subrange(0, i as int) =~= ports@);
    assert(probes@.subrange(0, i as int) =~= probes@);
    if in_use.len() == 0 {
        result("ports", CheckStatus::Pass, String::from_str("All required ports are available"), None)
    } else {
        let list = format_port_list(&in_use);
        result("ports", CheckStatus::Warn, text("Ports in use: ", list.as_str()),
            Some("Stop conflicting services or change port configuration"))
    }
}

/// The finding on the SSH identity file at `key`.
pub open spec fn ssh_key_check_is(r: CheckResult, key: Seq<char>, exists: bool) -> bool {
    if exists {
        is_result(r, "ssh_key"@, CheckStatus::Pass, "SSH key found: "@ + key, None)
    } else {
        is_result(r, "ssh_key"@, CheckStatus::Warn, "SSH key not found: "@ + key,
            Some("Generate SSH key pair with: ssh-keygen -t ed25519"@))
    }
}

/// Whether the SSH identity file exists.
pub fn check_ssh_key(config: &ResolvedConfig, key_exists: bool) -> (r: CheckResult)
    ensures
        ssh_key_check_is(r, config.vscode.identity_file@, key_exists),
{
    if key_exists {
        result("ssh_key", CheckStatus::Pass, text("SSH key found: ", config.vscode.identity_file.as_str()), None)
    } else {
        result("ssh_key", CheckStatus::Warn, text("SSH key not found: ", config.vscode.identity_file.as_str()),
            Some("Generate SSH key pair with: ssh-keygen -t ed25519"))
    }
}

/// The finding on the terminal fragment file at `file`.
pub open spec fn fragment_check_is(r: CheckResult, file: Seq<char>, exists: bool) -> bool {
    if exists {
        is_result(r, "terminal_fragment"@, CheckStatus::Pass, "Terminal fragment installed: "@ + file, None)
    } else {
        is_result(r, "terminal_fragment"@, CheckStatus::Warn, "Terminal fragment not installed"@,
            Some("Run: portaqemu terminal install"@))
    }
}

/// Whether the terminal fragment file is installed.
pub fn check_terminal_fragment(fragment_file: &str, exists: bool) -> (r: CheckResult)
    ensures
        fragment_check_is(r, fragment_file@, exists),
{
    if exists {
        result("terminal_fragment", CheckStatus::Pass, text("Terminal fragment installed: ", fragment_file), None)
    } else {
        result("terminal_fragment", CheckStatus::Warn, String::from_str("Terminal fragment not installed"),
            Some("Run: portaqemu terminal install"))
    }
}

/// The finding on the startup script.
pub open spec fn autostart_check_is(r: CheckResult, enabled: bool) -> bool {
    if enabled {
        is_result(r, "autostart"@, CheckStatus::Pass, "Autostart is enabled"@, None)
    } else {
        is_result(r, "autostart"@, CheckStatus::Warn, "Autostart is not enabled"@, Some("Run: portaqemu enable"@))
    }
}

/// Whether the startup script is installed.
pub fn check_autostart(enabled: bool) -> (r: CheckResult)
    ensures
        autostart_check_is(r, enabled),
{
    if enabled {
        result("autostart", CheckStatus::Pass, String::from_str("Autostart is enabled"), None)
    } else {
        result("autostart", CheckStatus::Warn, String::from_str("Autostart is not enabled"),
            Some("Run: portaqemu enable"))
    }
}

/// Runs every check, in a fixed order, on what was observed.
pub fn run_all_checks(config: &ResolvedConfig, obs: &Observations) -> (r: Vec<CheckResult>)
    requires
        obs.port_probes@.len() == host_ports(*config).len(),
    ensures
        r@.len() == 7,
        qemu_check_is(r@[0], match obs.qemu_path {
            Some(p) => Some(p@),
            None => None,
        }),
        disk_check_is(r@[1], config.vm.disk@, obs.disk_exists),
        accel_check_is(r@[2], config.accel.preferred, obs.availability),
        ports_check_is(r@[3], ports_in_use(host_ports(*config), obs.port_probes@)),
        ssh_key_check_is(r@[4], config.vscode.identity_file@, obs.ssh_key_exists),
        fragment_check_is(r@[5], obs.fragment_file@, obs.fragment_exists),
        autostart_check_is(r@[6], obs.autostart_enabled),
{
    let located = match &obs.qemu_path {
        Some(p) => Some(p.as_str()),
        None => None,
    };
    let mut v: Vec<CheckResult> = Vec::new();
    v.push(check_qemu_binary(located));
    v.push(check_disk_image(config, obs.disk_exists));
    v.push(check_acceleration(config, obs.availability));
    v.push(check_ports(config, &obs.port_probes));
    v.push(check_ssh_key(config, obs.ssh_key_exists));
    v.push(check_terminal_fragment(obs.fragment_file.as_str(), obs.fragment_exists));
    v.push(check_autostart(obs.autostart_enabled));
    v
}

} // verus!
