use vstd::prelude::*;
use vstd::string::*;

verus! {

/// `part` appended to `base` as a further path component: an absolute
/// `part` stands alone; otherwise one `/` separates the two.
pub open spec fn joined(base: Seq<char>, part: Seq<char>) -> Seq<char> {
    if part.len() > 0 && part[0] == '/' {
        part
    } else if base.len() == 0 {
        part
    } else if base.last() == '/' || base.last() == '\\' {
        base + part
    } else {
        base + "/"@ + part
    }
}

/// Appends the path component `part` to `base`.
pub fn join_path(base: &str, part: &str) -> (r: String)
    ensures
        r@ == joined(base@, part@),
{
    proof {
        reveal_strlit("/");
    }
    let pl = part.unicode_len();
    let bl = base.unicode_len();
    if pl > 0 && part.get_char(0) == '/' {
        String::from_str(part)
    } else if bl == 0 {
        String::from_str(part)
    } else {
        let last = base.get_char(bl - 1);
        let mut s = String::from_str(base);
        if !(last == '/' || last == '\\') {
            s.append("/");
        }
        s.append(part);
        s
    }
}

/// The directory that holds the SSH keys: `<root>/config/ssh`.
pub fn get_ssh_dir(root: &str) -> (r: String)
    ensures
        r@ == joined(joined(root@, "config"@), "ssh"@),
{
    let config = join_path(root, "config");
    join_path(config.as_str(), "ssh")
}

/// An SSH identity file under the key directory.
pub fn get_identity_file(root: &str, name: &str) -> (r: String)
    ensures
        r@ == joined(joined(joined(root@, "config"@), "ssh"@), name@),
{
    let dir = get_ssh_dir(root);
    join_path(dir.as_str(), name)
}

/// A VM's terminal fragment file under the fragments directory:
/// `<fragment_root>/PortaQEMU/<vm_name>.json`.
pub fn get_fragment_file(fragment_root: &str, vm_name: &str) -> (r: String)
    ensures
        r@ == joined(joined(fragment_root@, "PortaQEMU"@), vm_name@ + ".json"@),
{
    let dir = join_path(fragment_root, "PortaQEMU");
    let mut file = String::from_str(vm_name);
    file.append(".json");
    join_path(dir.as_str(), file.as_str())
}

/// A file directly under `<root>/<dir>`.
pub fn file_under(root: &str, dir: &str, name: &str) -> (r: String)
    ensures
        r@ == joined(joined(root@, dir@), name@),
{
    let d = join_path(root, dir);
    join_path(d.as_str(), name)
}

/// Where the virtualization binary is looked for under the root, in order:
/// `<root>/bin/qemu/` and then `<root>/bin/`.
pub fn qemu_candidates(root: &str) -> (r: Vec<String>)
    ensures
        r@.len() == 2,
        r@[0]@ == joined(joined(joined(root@, "bin"@), "qemu"@), "qemu-system-x86_64.exe"@),
        r@[1]@ == joined(joined(root@, "bin"@), "qemu-system-x86_64.exe"@),
{
    let bin = join_path(root, "bin");
    let nested = join_path(bin.as_str(), "qemu");
    let mut v: Vec<String> = Vec::new();
    v.push(join_path(nested.as_str(), "qemu-system-x86_64.exe"));
    v.push(join_path(bin.as_str(), "qemu-system-x86_64.exe"));
    v
}

/// The name of a VM's startup script: `PortaQEMU (<vm_name>).cmd`.
pub fn get_autostart_filename(vm_name: &str) -> (r: String)
    ensures
        r@ == "PortaQEMU ("@ + vm_name@ + ").cmd"@,
{
    let mut s = String::from_str("PortaQEMU (");
    s.append(vm_name);
    s.append(").cmd");
    s
}

} // verus!
