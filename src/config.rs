use vstd::prelude::*;

verus! {

/// How the configuration asks for the virtualization backend.
#[derive(Debug, Clone, Copy, PartialEq, Eq, Structural)]
pub enum AccelPreferred {
    Auto,
    Whpx,
    Tcg,
}

/// What a terminal profile runs when it is opened.
#[derive(Debug, Clone, Copy, PartialEq, Eq, Structural)]
pub enum TerminalMode {
    Ssh,
    UpAttach,
}

/// One host-to-guest TCP forward.
#[derive(Debug, Clone, Copy, PartialEq, Eq, Structural)]
pub struct PortForward {
    pub host: u16,
    pub guest: u16,
}

/// The configuration file as written, before variables are resolved.
#[derive(Debug, Clone)]
pub struct Config {
    pub vm: VmConfig,
    pub network: NetworkConfig,
    pub accel: AccelConfig,
    pub terminal: TerminalConfig,
    pub vscode: VscodeConfig,
}

#[derive(Debug, Clone)]
pub struct VmConfig {
    pub name: String,
    pub disk: String,
    pub memory_mb: u32,
    pub cpus: u32,
}

#[derive(Debug, Clone)]
pub struct NetworkConfig {
    pub ssh_host_port: u16,
    pub forwards: Vec<PortForward>,
}

#[derive(Debug, Clone, Copy, PartialEq, Eq, Structural)]
pub struct AccelConfig {
    pub preferred: AccelPreferred,
}

#[derive(Debug, Clone)]
pub struct TerminalConfig {
    pub profile_name: String,
    pub icon: String,
    pub mode: TerminalMode,
}

#[derive(Debug, Clone)]
pub struct VscodeConfig {
    pub ssh_user: String,
    pub identity_file: String,
}

/// The configuration with every path resolved.
#[derive(Debug, Clone)]
pub struct ResolvedConfig {
    pub vm: ResolvedVmConfig,
    pub network: NetworkConfig,
    pub accel: AccelConfig,
    pub terminal: ResolvedTerminalConfig,
    pub vscode: ResolvedVscodeConfig,
}

#[derive(Debug, Clone)]
pub struct ResolvedVmConfig {
    pub name: String,
    pub disk: String,
    pub memory_mb: u32,
    pub cpus: u32,
}

#[derive(Debug, Clone)]
pub struct ResolvedTerminalConfig {
    pub profile_name: String,
    pub icon: String,
    pub mode: TerminalMode,
}

#[derive(Debug, Clone)]
pub struct ResolvedVscodeConfig {
    pub ssh_user: String,
    pub identity_file: String,
}

/// The backend preference used when the file names none.
pub fn default_accel_preferred() -> (r: AccelPreferred)
    ensures
        r == AccelPreferred::Auto,
{
    AccelPreferred::Auto
}

/// The terminal mode used when the file names none.
pub fn default_terminal_mode() -> (r: TerminalMode)
    ensures
        r == TerminalMode::Ssh,
{
    TerminalMode::Ssh
}

} // verus!
