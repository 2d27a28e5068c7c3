use vstd::prelude::*;
use vstd::string::*;
use vstd::utf8::encode_utf8;
use crate::config::{ResolvedConfig, TerminalMode};
use crate::text::{dec_str, push_decimal, replace_all, replace_str};

verus! {

/// The namespace from which profile GUIDs are derived.
pub const PROFILE_NAMESPACE: u128 = 0x6ba7b8109dad11d180b400c04fd430c8;

/// The hyphenated text of the version-5 UUID for `name` in `namespace`.
pub uninterp spec fn uuid_v5_of(namespace: u128, name: Seq<u8>) -> Seq<char>;

/// Relies on `uuid::Uuid::new_v5` and its `Display`: the name-based UUID
/// of `name` in `namespace`, as text.
#[verifier::external_body]
fn uuid_v5_text(namespace: u128, name: &[u8]) -> (r: String)
    ensures
        r@ == uuid_v5_of(namespace, name@),
{
    uuid::Uuid::new_v5(&uuid::Uuid::from_u128(namespace), name).to_string()
}

/// The stable profile GUID of a VM, derived from its name alone.
pub fn generate_profile_guid(vm_name: &str) -> (r: String)
    ensures
        r@ == uuid_v5_of(PROFILE_NAMESPACE, encode_utf8(vm_name@)),
{
    uuid_v5_text(PROFILE_NAMESPACE, vm_name.as_bytes())
}

/// The command a terminal profile runs.
pub open spec fn commandline_text(mode: TerminalMode, port: u16, user: Seq<char>) -> Seq<char> {
    match mode {
        TerminalMode::Ssh => "ssh -p "@ + dec_str(port as nat) + " "@ + user + "@localhost"@,
        TerminalMode::UpAttach => "\"portaqemu.exe\" up --attach"@,
    }
}

/// The command the VM's terminal profile runs: an SSH session, or the tool
/// itself attached to the VM.
pub fn fragment_commandline(config: &ResolvedConfig) -> (r: String)
    ensures
        r@ == commandline_text(config.terminal.mode, config.network.ssh_host_port, config.vscode.ssh_user@),
{
    match config.terminal.mode {
        TerminalMode::Ssh => {
            let mut s = String::from_str("ssh -p ");
            push_decimal(&mut s, config.network.ssh_host_port as u64);
            s.append(" ");
            s.append(config.vscode.ssh_user.as_str());
            s.append("@localhost");
            s
        },
        TerminalMode::UpAttach => String::from_str("\"portaqemu.exe\" up --attach"),
    }
}

/// The profile's display name: `PortaQEMU: <vm_name>`.
pub fn fragment_profile_name(vm_name: &str) -> (r: String)
    ensures
        r@ == "PortaQEMU: "@ + vm_name@,
{
    let mut s = String::from_str("PortaQEMU: ");
    s.append(vm_name);
    s
}

/// The icon path with each backslash doubled.
pub fn fragment_icon_path(icon: &str) -> (r: String)
    ensures
        r@ == replace_all(icon@, "\\"@, "\\\\"@),
{
    proof {
        reveal_strlit("\\");
    }
    replace_str(icon, "\\", "\\\\")
}

/// The SSH command line for reaching the VM by hand.
pub fn ssh_command_text(config: &ResolvedConfig) -> (r: String)
    ensures
        r@ == "ssh -p "@ + dec_str(config.network.ssh_host_port as nat) + " "@ + config.vscode.ssh_user@
            + "@localhost -i "@ + config.vscode.identity_file@,
{
    let mut s = String::from_str("ssh -p ");
    push_decimal(&mut s, config.network.ssh_host_port as u64);
    s.append(" ");
    s.append(config.vscode.ssh_user.as_str());
    s.append("@localhost -i ");
    s.append(config.vscode.identity_file.as_str());
    s
}

/// Why autostart could not be changed.
#[derive(Debug, Clone, PartialEq, Eq)]
pub enum AutostartError {
    Io(String),
    StartupFolderNotFound,
}

/// The startup script that brings the VM up without waiting, with the
/// executable's path in backslashes.
pub fn autostart_script(exe_path: &str) -> (r: String)
    ensures
        r@ == "@echo off\n\""@ + replace_all(exe_path@, "/"@, "\\"@) + "\" up --no-wait\n"@,
{
    proof {
        reveal_strlit("/");
    }
    let exe = replace_str(exe_path, "/", "\\");
    let mut s = String::from_str("@echo off\n\"");
    s.append(exe.as_str());
    s.append("\" up --no-wait\n");
    s
}

} // verus!
