use vstd::prelude::*;
use vstd::string::*;
use crate::accel::AccelChoice;
use crate::config::{PortForward, ResolvedConfig};
use crate::text::{dec_str, decimal, join_with, lower_of, lowercase, push_decimal, str_eq, views};

verus! {

/// Whether `c` separates the components of a path.
pub open spec fn is_path_sep(c: char) -> bool {
    c == '/' || c == '\\'
}

/// The last component of a path: what follows its last separator.
pub open spec fn file_name_of(p: Seq<char>) -> Seq<char>
    decreases p.len(),
{
    if p.len() == 0 {
        p
    } else if is_path_sep(p.last()) {
        Seq::empty()
    } else {
        file_name_of(p.drop_last()).push(p.last())
    }
}

/// The extension of a file name: what follows its last dot, where that dot
/// is not the name's first character.
pub open spec fn extension_of(n: Seq<char>) -> Option<Seq<char>>
    decreases n.len(),
{
    if n.len() <= 1 {
        None
    } else if n.last() == '.' {
        Some(Seq::empty())
    } else {
        match extension_of(n.drop_last()) {
            Some(e) => Some(e.push(n.last())),
            None => None,
        }
    }
}

/// The extension of a path's file name, empty where there is none.
pub open spec fn path_extension(p: Seq<char>) -> Seq<char> {
    match extension_of(file_name_of(p)) {
        Some(e) => e,
        None => Seq::empty(),
    }
}

/// The disk format implied by a lower-cased extension.
pub open spec fn format_for_ext(e: Seq<char>) -> Seq<char> {
    if e == "raw"@ || e == "img"@ {
        "raw"@
    } else {
        "qcow2"@
    }
}

/// The last component of the path `p`.
pub fn file_name(p: &str) -> (r: &str)
    ensures
        r@ == file_name_of(p@),
{
    let n = p.unicode_len();
    let mut i: usize = n;
    assert(p@.subrange(0, n as int) =~= p@);
    assert(file_name_of(p@) =~= file_name_of(p@.subrange(0, n as int)) + p@.subrange(n as int, n as int));
    while i > 0 && !(p.get_char(i - 1) == '/' || p.get_char(i - 1) == '\\')
        invariant
            i <= n,
            n == p@.len(),
            file_name_of(p@) == file_name_of(p@.subrange(0, i as int)) + p@.subrange(i as int, n as int),
        decreases i,
    {
        let ghost pre = p@.subrange(0, i as int);
        assert(pre.drop_last() =~= p@.subrange(0, i - 1));
        assert(p@.subrange(i - 1, n as int) =~= seq![pre.last()] + p@.subrange(i as int, n as int));
        i = i - 1;
    }
    if i == 0 {
        assert(p@.subrange(0, 0) =~= Seq::<char>::empty());
    }
    assert(file_name_of(p@) =~= p@.subrange(i as int, n as int));
    p.substring_char(i, n)
}

/// The extension of the path `p`, empty where it has none.
pub fn extension(p: &str) -> (r: &str)
    ensures
        r@ == path_extension(p@),
{
    let name = file_name(p);
    let n = name.unicode_len();
    let mut j: usize = n;
    assert(name@.subrange(0, n as int) =~= name@);
    proof {
        match extension_of(name@) {
            Some(e) => {
                assert(e + name@.subrange(n as int, n as int) =~= e);
            },
            None => {},
        }
    }
    while j > 1 && name.get_char(j - 1) != '.'
        invariant
            j <= n,
            n == name@.len(),
            extension_of(name@) == match extension_of(name@.subrange(0, j as int)) {
                Some(e) => Some(e + name@.subrange(j as int, n as int)),
                None => None::<Seq<char>>,
            },
        decreases j,
    {
        let ghost pre = name@.subrange(0, j as int);
        assert(pre.drop_last() =~= name@.subrange(0, j - 1));
        assert(name@.subrange(j - 1, n as int) =~= seq![pre.last()] + name@.subrange(j as int, n as int));
        proof {
            match extension_of(pre.drop_last()) {
                Some(e) => {
                    assert(e.push(pre.last()) + name@.subrange(j as int, n as int) =~= e + name@.subrange(j - 1, n as int));
                },
                None => {},
            }
        }
        j = j - 1;
    }
    if j > 1 {
        assert(Seq::<char>::empty() + name@.subrange(j as int, n as int) =~= name@.subrange(j as int, n as int));
        name.substring_char(j, n)
    } else {
        proof {
            reveal_strlit("");
        }
        ""
    }
}

/// The disk format named by a lower-cased extension: `raw` for `raw` and
/// `img`, `qcow2` for anything else.
pub fn disk_format_for_ext(ext: &str) -> (r: &'static str)
    ensures
        r@ == format_for_ext(ext@),
{
    if str_eq(ext, "raw") || str_eq(ext, "img") {
        "raw"
    } else {
        "qcow2"
    }
}

/// The disk format inferred from the extension of the disk's path.
pub fn detect_disk_format(disk: &str) -> (r: &'static str)
    ensures
        r@ == format_for_ext(lower_of(path_extension(disk@))),
{
    let ext = extension(disk);
    let lower = lowercase(ext);
    disk_format_for_ext(lower.as_str())
}

/// The forward rule `hostfwd=tcp:127.0.0.1:<host>-:<guest>`.
pub open spec fn hostfwd_rule(host: u16, guest: u16) -> Seq<char> {
    "hostfwd=tcp:127.0.0.1:"@ + dec_str(host as nat) + "-:"@ + dec_str(guest as nat)
}

/// The forward rules of a network: the SSH port to guest port 22, then each
/// configured forward in order.
pub open spec fn forward_rules(ssh_port: u16, forwards: Seq<PortForward>) -> Seq<Seq<char>> {
    seq![hostfwd_rule(ssh_port, 22)] + forwards.map_values(|f: PortForward| hostfwd_rule(f.host, f.guest))
}

/// The user-mode network backend with its forward rules.
pub open spec fn netdev_arg(ssh_port: u16, forwards: Seq<PortForward>) -> Seq<char> {
    "user,id=n0,"@ + join_with(forward_rules(ssh_port, forwards), ","@)
}

/// The accelerator's name on the command line.
pub open spec fn accel_name(a: AccelChoice) -> Seq<char> {
    match a {
        AccelChoice::Whpx => "whpx"@,
        AccelChoice::Tcg => "tcg"@,
    }
}

/// The CPU model paired with an accelerator.
pub open spec fn cpu_model(a: AccelChoice) -> Seq<char> {
    match a {
        AccelChoice::Whpx => "host"@,
        AccelChoice::Tcg => "qemu64"@,
    }
}

/// The disk attachment.
pub open spec fn drive_arg(disk: Seq<char>) -> Seq<char> {
    "file="@ + disk + ",if=virtio,format="@ + format_for_ext(lower_of(path_extension(disk)))
}

/// The full launch argument sequence for a configuration and backend.
pub open spec fn launch_args(cfg: ResolvedConfig, accel: AccelChoice) -> Seq<Seq<char>> {
    seq![
        "-name"@, cfg.vm.name@,
        "-machine"@, "q35"@,
        "-accel"@, accel_name(accel),
        "-cpu"@, cpu_model(accel),
        "-m"@, dec_str(cfg.vm.memory_mb as nat),
        "-smp"@, dec_str(cfg.vm.cpus as nat),
        "-rtc"@, "base=localtime"@,
        "-device"@, "qemu-xhci"@,
        "-device"@, "usb-tablet"@,
        "-drive"@, drive_arg(cfg.vm.disk@),
        "-netdev"@, netdev_arg(cfg.network.ssh_host_port, cfg.network.forwards@),
        "-device"@, "virtio-net-pci,netdev=n0"@
    ]
}

/// Appends one forward rule to `out`.
fn push_hostfwd(out: &mut String, host: u16, guest: u16)
    ensures
        final(out)@ == old(out)@ + hostfwd_rule(host, guest),
{
    out.append("hostfwd=tcp:127.0.0.1:");
    push_decimal(out, host as u64);
    out.append("-:");
    push_decimal(out, guest as u64);
    assert(final(out)@ =~= old(out)@ + hostfwd_rule(host, guest));
}

/// The `-netdev` value: user networking with every forward rule.
pub fn build_netdev(ssh_port: u16, forwards: &Vec<PortForward>) -> (r: String)
    ensures
        r@ == netdev_arg(ssh_port, forwards@),
{
    let ghost rules = forward_rules(ssh_port, forwards@);
    let mut s = String::from_str("user,id=n0,");
    push_hostfwd(&mut s, ssh_port, 22);
    assert(rules.subrange(0, 1) =~= seq![hostfwd_rule(ssh_port, 22)]);
    let mut k: usize = 0;
    while k < forwards.len()
        invariant
            k <= forwards@.len(),
            rules == forward_rules(ssh_port, forwards@),
            s@ == "user,id=n0,"@ + join_with(rules.subrange(0, k + 1), ","@),
        decreases forwards@.len() - k,
    {
        let f = forwards[k];
        s.append(",");
        push_hostfwd(&mut s, f.host, f.guest);
        assert(rules.subrange(0, k + 2).drop_last() =~= rules.subrange(0, k + 1));
        assert(rules[k + 1] == hostfwd_rule(f.host, f.guest));
        assert(s@ =~= "user,id=n0,"@ + join_with(rules.subrange(0, k + 2), ","@));
        k = k + 1;
    }
    assert(rules.subrange(0, k + 1) =~= rules);
    s
}

/// Builds the launch arguments for a configuration and backend. The result
/// depends on nothing else: no I/O, no validation.
pub fn build_argv(cfg: &ResolvedConfig, qemu_path: &str, accel: AccelChoice) -> (r: Vec<String>)
    ensures
        views(r@) == launch_args(*cfg, accel),
{
    let mut argv: Vec<String> = Vec::new();
    argv.push(String::from_str("-name"));
    argv.push(cfg.vm.name.clone());
    argv.push(String::from_str("-machine"));
    argv.push(String::from_str("q35"));
    argv.push(String::from_str("-accel"));
    argv.push(match accel {
        AccelChoice::Whpx => String::from_str("whpx"),
        AccelChoice::Tcg => String::from_str("tcg"),
    });
    argv.push(String::from_str("-cpu"));
    argv.push(match accel {
        AccelChoice::Whpx => String::from_str("host"),
        AccelChoice::Tcg => String::from_str("qemu64"),
    });
    argv.push(String::from_str("-m"));
    argv.push(decimal(cfg.vm.memory_mb as u64));
    argv.push(String::from_str("-smp"));
    argv.push(decimal(cfg.vm.cpus as u64));
    argv.push(String::from_str("-rtc"));
    argv.push(String::from_str("base=localtime"));
    argv.push(String::from_str("-device"));
    argv.push(String::from_str("qemu-xhci"));
    argv.push(String::from_str("-device"));
    argv.push(String::from_str("usb-tablet"));
    argv.push(String::from_str("-drive"));
    let mut drive = String::from_str("file=");
    drive.append(cfg.vm.disk.as_str());
    drive.append(",if=virtio,format=");
    drive.append(detect_disk_format(cfg.vm.disk.as_str()));
    argv.push(drive);
    argv.push(String::from_str("-netdev"));
    argv.push(build_netdev(cfg.network.ssh_host_port, &cfg.network.forwards));
    argv.push(String::from_str("-device"));
    argv.push(String::from_str("virtio-net-pci,netdev=n0"));
    assert(views(argv@) =~= launch_args(*cfg, accel));
    argv
}

} // verus!
