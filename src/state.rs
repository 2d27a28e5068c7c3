use vstd::prelude::*;

verus! {

/// The persisted record of the one VM: the single source of truth between
/// invocations.
#[derive(Debug, Clone)]
pub struct VmState {
    pub running: bool,
    pub qemu_pid: Option<u32>,
    pub started_at: Option<String>,
    pub qemu_args_hash: Option<String>,
    pub last_error: Option<String>,
}

impl VmState {
    /// A running VM has a recorded pid. The pid alone never proves that
    /// the process is alive: readers ask the operating system.
    pub open spec fn wf(&self) -> bool {
        self.running ==> self.qemu_pid is Some
    }
}

impl Default for VmState {
    /// The state when no state file exists: not running, nothing recorded.
    fn default() -> (r: VmState)
        ensures
            !r.running,
            r.qemu_pid is None,
            r.started_at is None,
            r.qemu_args_hash is None,
            r.last_error is None,
    {
        VmState { running: false, qemu_pid: None, started_at: None, qemu_args_hash: None, last_error: None }
    }
}

/// What `status` reports after asking whether the recorded pid is alive.
#[derive(Debug, Clone)]
pub struct StatusReport {
    pub running: bool,
    pub pid: Option<u32>,
    pub started_at: Option<String>,
}

/// What `down` has to do.
#[derive(Debug, Clone, Copy, PartialEq, Eq, Structural)]
pub enum DownAction {
    /// Nothing is recorded as running: leave the state as it is.
    NothingRunning,
    /// Terminate this live process, then record the VM as stopped.
    Terminate(u32),
    /// The recorded process is gone or unknown: record the VM as stopped.
    Forget(Option<u32>),
}

/// Whether the recorded VM is running, by the state and a liveness answer
/// for its pid.
pub open spec fn is_live(state: VmState, pid_alive: bool) -> bool {
    state.qemu_pid is Some && pid_alive
}

/// Whether `up` finds the VM already running and has nothing to do.
pub fn already_running(state: &VmState, pid_alive: bool) -> (r: bool)
    ensures
        r == (state.running && is_live(*state, pid_alive)),
{
    state.running && state.qemu_pid.is_some() && pid_alive
}

/// The state recorded after a successful launch of process `pid`.
pub fn launched_state(prev: VmState, pid: u32, started_at: String, args_hash: String) -> (r: VmState)
    ensures
        r.wf(),
        r.running,
        r.qemu_pid == Some(pid),
        r.started_at == Some(started_at),
        r.qemu_args_hash == Some(args_hash),
        r.last_error is None,
{
    let mut s = prev;
    s.running = true;
    s.qemu_pid = Some(pid);
    s.started_at = Some(started_at);
    s.qemu_args_hash = Some(args_hash);
    s.last_error = None;
    s
}

/// The state recorded once the VM has been stopped: not running and no pid;
/// the other fields are kept.
pub fn stopped_state(prev: VmState) -> (r: VmState)
    ensures
        r.wf(),
        !r.running,
        r.qemu_pid is None,
        r.started_at == prev.started_at,
        r.qemu_args_hash == prev.qemu_args_hash,
        r.last_error == prev.last_error,
{
    let mut s = prev;
    s.running = false;
    s.qemu_pid = None;
    s
}

/// Decides what `down` does with the recorded state and a liveness answer
/// for its pid.
pub fn down_action(state: &VmState, pid_alive: bool) -> (r: DownAction)
    ensures
        !state.running ==> r == DownAction::NothingRunning,
        state.running && is_live(*state, pid_alive) ==> r == DownAction::Terminate(state.qemu_pid->Some_0),
        state.running && !is_live(*state, pid_alive) ==> r == DownAction::Forget(state.qemu_pid),
{
    if !state.running {
        DownAction::NothingRunning
    } else {
        match state.qemu_pid {
            Some(pid) => if pid_alive {
                DownAction::Terminate(pid)
            } else {
                DownAction::Forget(Some(pid))
            },
            None => DownAction::Forget(None),
        }
    }
}

/// What `status` reports: running only where a pid is recorded and that
/// process is alive; the recorded pid and start time as they are.
pub fn status_of(state: VmState, pid_alive: bool) -> (r: StatusReport)
    ensures
        r.running == is_live(state, pid_alive),
        r.pid == state.qemu_pid,
        r.started_at == state.started_at,
{
    let running = state.qemu_pid.is_some() && pid_alive;
    StatusReport { running, pid: state.qemu_pid, started_at: state.started_at }
}

/// Right after a launch, `status` reports the VM running with the launched
/// pid while that process lives; after `down`, it reports it stopped with no
/// pid, whatever the liveness answer.
pub proof fn lemma_status_after_launch_and_down(launched: VmState, stopped: VmState, pid: u32, alive: bool)
    requires
        launched.running,
        launched.qemu_pid == Some(pid),
        !stopped.running,
        stopped.qemu_pid is None,
    ensures
        is_live(launched, true),
        !is_live(stopped, alive),
{
}

} // verus!
