use vstd::prelude::*;
use crate::accel::{chosen, AccelAvailability, AccelChoice, AccelError};
use crate::argv::launch_args;
use crate::config::ResolvedConfig;
use crate::hashing::{hash_argv, hash_input, hex_of, sha256_of};
use crate::launch::{plan_is, plan_launch, LaunchPlan, Negotiation, NegotiationStep, SpawnError};
use crate::negotiate::{probe_outcome, ProbeVerdict};
use crate::net::{check_ports_available, host_ports, ports_to_check, ports_verdict, wait_step, NetError, WaitStep};
use crate::state::{already_running, is_live, launched_state, VmState};
use crate::text::{lower_of, views};

verus! {

/// Where an `up` invocation stands. The lock is held throughout.
pub enum UpPhase {
    /// Waiting for the persisted state and the liveness of its pid.
    AwaitState,
    /// Waiting for the resolved configuration.
    AwaitConfig { state: VmState },
    /// Waiting for the bind probe of each host port.
    AwaitPorts { state: VmState, config: ResolvedConfig },
    /// Waiting for the binary's location and the backends it reports.
    AwaitBinary { state: VmState, config: ResolvedConfig },
    /// Waiting for the process of a launch to be created.
    AwaitSpawn { state: VmState, config: ResolvedConfig, qemu_path: String, negotiation: Negotiation, args_hash: String },
    /// Polling a launched process through the grace period.
    Watching {
        state: VmState,
        config: ResolvedConfig,
        qemu_path: String,
        negotiation: Negotiation,
        args_hash: String,
        pid: u32,
    },
    /// Waiting for the launch time to record.
    AwaitClock { state: VmState, ssh_port: u16, pid: u32, args_hash: String },
    /// Waiting for the new state to be saved.
    AwaitSave { ssh_port: u16, pid: u32 },
    /// Polling the guest's SSH port.
    AwaitReady { ssh_port: u16, pid: u32 },
    /// Nothing left to do.
    Done,
}

/// What the caller observed after carrying out the last action.
pub enum UpEvent {
    StateLoaded { state: VmState, pid_alive: bool },
    ConfigLoaded(ResolvedConfig),
    /// One answer per port of the last `ProbePorts`, in order.
    PortsProbed(Vec<Result<bool, NetError>>),
    BinaryFound { qemu_path: String, availability: AccelAvailability },
    Spawned(Result<u32, SpawnError>),
    /// The launched process has exited (`Some(success)`) or not, with its
    /// diagnostics, `elapsed_ms` into the grace period.
    Polled { exited: Option<bool>, diagnostics: String, elapsed_ms: u64 },
    Clock(String),
    Saved,
    ReadyPolled { connected: bool, elapsed_ms: u64 },
}

/// What the caller has to do next.
pub enum UpAction {
    LoadState,
    LoadConfig,
    ProbePorts(Vec<u16>),
    LocateBinary,
    /// Start the binary with these arguments, output to the log.
    Spawn(Vec<String>),
    /// Wait one interval, then poll the process.
    Poll,
    /// Terminate what remains of the process, then start these arguments.
    Relaunch(Vec<String>),
    ReadClock,
    Save(VmState),
    /// Try to connect to this port (after one interval when retrying).
    WaitReady(u16),
    Finish(Result<UpOutcome, UpError>),
}

/// How a successful `up` ended.
#[derive(Debug, Clone, Copy, PartialEq, Eq, Structural)]
pub enum UpOutcome {
    /// The recorded VM was alive: nothing was started.
    AlreadyRunning(u32),
    /// This process was started and recorded.
    Started(u32),
}

/// Why `up` failed.
#[derive(Debug, Clone, PartialEq, Eq)]
pub enum UpError {
    Ports(NetError),
    Accel(AccelError),
    Spawn(SpawnError),
    /// The VM was started and recorded, but its SSH port never answered.
    NotReady { pid: u32, error: NetError },
    /// The event does not answer the last action.
    OutOfOrder,
}

/// An `up` invocation in progress.
pub struct UpSession {
    pub phase: UpPhase,
    pub no_wait: bool,
}

/// Whether `a` asks to spawn exactly the launch arguments of `cfg` for `accel`.
pub open spec fn spawns(a: UpAction, cfg: ResolvedConfig, accel: AccelChoice) -> bool {
    &&& a is Spawn
    &&& views(a->Spawn_0@) == launch_args(cfg, accel)
}

/// The digest recorded for the launch arguments of `cfg` with `accel`.
pub open spec fn digest_of(cfg: ResolvedConfig, accel: AccelChoice) -> Seq<char> {
    hex_of(sha256_of(hash_input(launch_args(cfg, accel))))
}

/// Whether `a` finishes with `r`.
pub open spec fn finishes(a: UpAction, r: Result<UpOutcome, UpError>) -> bool {
    a is Finish && a->Finish_0 == r
}

/// Whether `p` watches process `pid`, launched for `cfg` under negotiation `n`.
pub open spec fn watching(p: UpPhase, cfg: ResolvedConfig, n: Negotiation, pid: u32) -> bool {
    &&& p is Watching
    &&& p->Watching_negotiation == n
    &&& p->Watching_pid == pid
    &&& p->Watching_config == cfg
}

/// Whether `p` waits for the clock to record process `pid`, whose SSH port
/// is `port`.
pub open spec fn recording(p: UpPhase, port: u16, pid: u32) -> bool {
    &&& p is AwaitClock
    &&& p->AwaitClock_ssh_port == port
    &&& p->AwaitClock_pid == pid
}

impl UpSession {
    /// The negotiation of a launch in progress is well formed.
    pub open spec fn wf(&self) -> bool {
        match self.phase {
            UpPhase::AwaitSpawn { negotiation, .. } => negotiation.wf(),
            UpPhase::Watching { negotiation, .. } => negotiation.wf(),
            _ => true,
        }
    }

    /// A new session; the first action loads the state.
    pub fn new(no_wait: bool) -> (r: (UpSession, UpAction))
        ensures
            r.0.wf(),
            r.0.phase is AwaitState,
            r.0.no_wait == no_wait,
            r.1 is LoadState,
    {
        (UpSession { phase: UpPhase::AwaitState, no_wait }, UpAction::LoadState)
    }

    /// Advances the session by one observed event.
    pub fn step(self, event: UpEvent) -> (r: (UpSession, UpAction))
        requires
            self.wf(),
        ensures
            r.0.wf(),
            r.0.no_wait == self.no_wait,
            // A state whose VM is alive ends the session; otherwise the
            // configuration is loaded.
            (self.phase is AwaitState && event is StateLoaded) ==> {
                let s = event->StateLoaded_state;
                let alive = event->StateLoaded_pid_alive;
                if s.running && is_live(s, alive) {
                    r.0.phase is Done && finishes(r.1, Ok(UpOutcome::AlreadyRunning(s.qemu_pid->Some_0)))
                } else {
                    r.0.phase == (UpPhase::AwaitConfig { state: s }) && r.1 is LoadConfig
                }
            },
            // The host ports are probed before anything is started.
            (self.phase is AwaitConfig && event is ConfigLoaded) ==> {
                &&& r.0.phase == (UpPhase::AwaitPorts { state: self.phase->AwaitConfig_state, config: event->ConfigLoaded_0 })
                &&& r.1 is ProbePorts && r.1->ProbePorts_0@ == host_ports(event->ConfigLoaded_0)
            },
            (self.phase is AwaitPorts && event is PortsProbed) ==> {
                let cfg = self.phase->AwaitPorts_config;
                let probes = event->PortsProbed_0@;
                if probes.len() != host_ports(cfg).len() {
                    r.0.phase is Done && finishes(r.1, Err(UpError::OutOfOrder))
                } else {
                    match ports_verdict(host_ports(cfg), probes) {
                        Ok(_) => r.0.phase == (UpPhase::AwaitBinary { state: self.phase->AwaitPorts_state, config: cfg })
                            && r.1 is LocateBinary,
                        Err(e) => r.0.phase is Done && finishes(r.1, Err(UpError::Ports(e))),
                    }
                }
            },
            // The backend is chosen, and the first launch planned with it.
            (self.phase is AwaitBinary && event is BinaryFound) ==> {
                let cfg = self.phase->AwaitBinary_config;
                match chosen(cfg.accel.preferred, event->BinaryFound_availability) {
                    Err(e) => r.0.phase is Done && finishes(r.1, Err(UpError::Accel(e))),
                    Ok(a) => {
                        &&& r.0.phase is AwaitSpawn
                        &&& r.0.phase->AwaitSpawn_config == cfg
                        &&& r.0.phase->AwaitSpawn_negotiation == Negotiation {
                            accel: a,
                            probing: crate::negotiate::probes_launch(cfg.accel.preferred, a),
                            relaunched: false,
                        }
                        &&& r.0.phase->AwaitSpawn_args_hash@ == digest_of(cfg, a)
                        &&& spawns(r.1, cfg, a)
                    },
                }
            },
            (self.phase is AwaitSpawn && event is Spawned) ==> match event->Spawned_0 {
                Err(e) => r.0.phase is Done && finishes(r.1, Err(UpError::Spawn(e))),
                Ok(pid) => {
                    let n = self.phase->AwaitSpawn_negotiation;
                    let cfg = self.phase->AwaitSpawn_config;
                    if n.probing {
                        watching(r.0.phase, cfg, n, pid) && r.1 is Poll
                    } else {
                        recording(r.0.phase, cfg.network.ssh_host_port, pid)
                            && r.0.phase->AwaitClock_args_hash == self.phase->AwaitSpawn_args_hash
                            && r.1 is ReadClock
                    }
                },
            },
            // The grace period: keep polling, accept, or relaunch once.
            (self.phase is Watching && event is Polled) ==> {
                let n = self.phase->Watching_negotiation;
                let cfg = self.phase->Watching_config;
                let pid = self.phase->Watching_pid;
                let v = probe_outcome(event->Polled_exited, lower_of(event->Polled_diagnostics@),
                    event->Polled_elapsed_ms, crate::session::GRACE_PERIOD_MS);
                if !n.probing || v == ProbeVerdict::Accept {
                    recording(r.0.phase, cfg.network.ssh_host_port, pid)
                        && r.0.phase->AwaitClock_args_hash == self.phase->Watching_args_hash
                        && r.1 is ReadClock
                } else if v == ProbeVerdict::KeepWaiting {
                    watching(r.0.phase, cfg, n, pid) && r.1 is Poll
                } else {
                    &&& r.0.phase is AwaitSpawn
                    &&& r.0.phase->AwaitSpawn_config == cfg
                    &&& r.0.phase->AwaitSpawn_negotiation == (Negotiation {
                        accel: AccelChoice::Tcg,
                        probing: false,
                        relaunched: true,
                    })
                    &&& r.0.phase->AwaitSpawn_args_hash@ == digest_of(cfg, AccelChoice::Tcg)
                    &&& r.1 is Relaunch && views(r.1->Relaunch_0@) == launch_args(cfg, AccelChoice::Tcg)
                }
            },
            // The launch is recorded before readiness is awaited.
            (self.phase is AwaitClock && event is Clock) ==> {
                let pid = self.phase->AwaitClock_pid;
                &&& r.0.phase == (UpPhase::AwaitSave { ssh_port: self.phase->AwaitClock_ssh_port, pid })
                &&& r.1 is Save
                &&& r.1->Save_0.running
                &&& r.1->Save_0.qemu_pid == Some(pid)
                &&& r.1->Save_0.started_at == Some(event->Clock_0)
                &&& r.1->Save_0.qemu_args_hash == Some(self.phase->AwaitClock_args_hash)
                &&& r.1->Save_0.last_error is None
            },
            (self.phase is AwaitSave && event is Saved) ==> {
                let pid = self.phase->AwaitSave_pid;
                let port = self.phase->AwaitSave_ssh_port;
                if self.no_wait {
                    r.0.phase is Done && finishes(r.1, Ok(UpOutcome::Started(pid)))
                } else {
                    r.0.phase == (UpPhase::AwaitReady { ssh_port: port, pid }) && r.1 == UpAction::WaitReady(port)
                }
            },
            (self.phase is AwaitReady && event is ReadyPolled) ==> {
                let pid = self.phase->AwaitReady_pid;
                let port = self.phase->AwaitReady_ssh_port;
                match wait_step_outcome(port, event->ReadyPolled_connected, event->ReadyPolled_elapsed_ms) {
                    WaitStep::Ready => r.0.phase is Done && finishes(r.1, Ok(UpOutcome::Started(pid))),
                    WaitStep::Retry => r.0.phase == (UpPhase::AwaitReady { ssh_port: port, pid })
                        && r.1 == UpAction::WaitReady(port),
                    WaitStep::Fail(e) => r.0.phase is Done && finishes(r.1, Err(UpError::NotReady { pid, error: e })),
                }
            },
            // Any other event is out of order.
            !answers(self.phase, event) ==> r.0.phase is Done && finishes(r.1, Err(UpError::OutOfOrder)),
    {
        let no_wait = self.no_wait;
        let out_of_order = (UpSession { phase: UpPhase::Done, no_wait }, UpAction::Finish(Err(UpError::OutOfOrder)));
        match self.phase {
            UpPhase::AwaitState => match event {
                UpEvent::StateLoaded { state, pid_alive } => {
                    if already_running(&state, pid_alive) {
                        let pid = match state.qemu_pid {
                            Some(p) => p,
                            None => 0,
                        };
                        (UpSession { phase: UpPhase::Done, no_wait }, UpAction::Finish(Ok(UpOutcome::AlreadyRunning(pid))))
                    } else {
                        (UpSession { phase: UpPhase::AwaitConfig { state }, no_wait }, UpAction::LoadConfig)
                    }
                },
                _ => out_of_order,
            },
            UpPhase::AwaitConfig { state } => match event {
                UpEvent::ConfigLoaded(config) => {
                    let ports = ports_to_check(&config);
                    (UpSession { phase: UpPhase::AwaitPorts { state, config }, no_wait }, UpAction::ProbePorts(ports))
                },
                _ => out_of_order,
            },
            UpPhase::AwaitPorts { state, config } => match event {
                UpEvent::PortsProbed(probes) => {
                    let ports = ports_to_check(&config);
                    if probes.len() != ports.len() {
                        out_of_order
                    } else {
                        match check_ports_available(ports.as_slice(), probes) {
                            Ok(_) => (UpSession { phase: UpPhase::AwaitBinary { state, config }, no_wait }, UpAction::LocateBinary),
                            Err(e) => (UpSession { phase: UpPhase::Done, no_wait }, UpAction::Finish(Err(UpError::Ports(e)))),
                        }
                    }
                },
                _ => out_of_order,
            },
            UpPhase::AwaitBinary { state, config } => match event {
                UpEvent::BinaryFound { qemu_path, availability } => {
                    match plan_launch(&config, qemu_path.as_str(), &availability) {
                        Ok(plan) => {
                            let negotiation = Negotiation::start(&plan);
                            let args_hash = hash_argv(plan.argv.as_slice());
                            let LaunchPlan { argv, .. } = plan;
                            (
                                UpSession { phase: UpPhase::AwaitSpawn { state, config, qemu_path, negotiation, args_hash }, no_wait },
                                UpAction::Spawn(argv),
                            )
                        },
                        Err(e) => (UpSession { phase: UpPhase::Done, no_wait }, UpAction::Finish(Err(UpError::Accel(e)))),
                    }
                },
                _ => out_of_order,
            },
            UpPhase::AwaitSpawn { state, config, qemu_path, negotiation, args_hash } => match event {
                UpEvent::Spawned(Ok(pid)) => {
                    if negotiation.probing {
                        (
                            UpSession { phase: UpPhase::Watching { state, config, qemu_path, negotiation, args_hash, pid }, no_wait },
                            UpAction::Poll,
                        )
                    } else {
                        let ssh_port = config.network.ssh_host_port;
                        (UpSession { phase: UpPhase::AwaitClock { state, ssh_port, pid, args_hash }, no_wait }, UpAction::ReadClock)
                    }
                },
                UpEvent::Spawned(Err(e)) => (UpSession { phase: UpPhase::Done, no_wait }, UpAction::Finish(Err(UpError::Spawn(e)))),
                _ => out_of_order,
            },
            UpPhase::Watching { state, config, qemu_path, negotiation, args_hash, pid } => match event {
                UpEvent::Polled { exited, diagnostics, elapsed_ms } => {
                    let (next, step) = negotiation.on_poll(
                        &config, qemu_path.as_str(), exited, diagnostics.as_str(), elapsed_ms, GRACE_PERIOD_MS);
                    match step {
                        NegotiationStep::Wait => (
                            UpSession { phase: UpPhase::Watching { state, config, qemu_path, negotiation: next, args_hash, pid }, no_wait },
                            UpAction::Poll,
                        ),
                        NegotiationStep::Accept => {
                            let ssh_port = config.network.ssh_host_port;
                            (UpSession { phase: UpPhase::AwaitClock { state, ssh_port, pid, args_hash }, no_wait }, UpAction::ReadClock)
                        },
                        NegotiationStep::Relaunch(plan) => {
                            let args_hash = hash_argv(plan.argv.as_slice());
                            let LaunchPlan { argv, .. } = plan;
                            (
                                UpSession { phase: UpPhase::AwaitSpawn { state, config, qemu_path, negotiation: next, args_hash }, no_wait },
                                UpAction::Relaunch(argv),
                            )
                        },
                    }
                },
                _ => out_of_order,
            },
            UpPhase::AwaitClock { state, ssh_port, pid, args_hash } => match event {
                UpEvent::Clock(started_at) => {
                    let saved = launched_state(state, pid, started_at, args_hash);
                    (UpSession { phase: UpPhase::AwaitSave { ssh_port, pid }, no_wait }, UpAction::Save(saved))
                },
                _ => out_of_order,
            },
            UpPhase::AwaitSave { ssh_port, pid } => match event {
                UpEvent::Saved => {
                    if no_wait {
                        (UpSession { phase: UpPhase::Done, no_wait }, UpAction::Finish(Ok(UpOutcome::Started(pid))))
                    } else {
                        (UpSession { phase: UpPhase::AwaitReady { ssh_port, pid }, no_wait }, UpAction::WaitReady(ssh_port))
                    }
                },
                _ => out_of_order,
            },
            UpPhase::AwaitReady { ssh_port, pid } => match event {
                UpEvent::ReadyPolled { connected, elapsed_ms } => {
                    match wait_step(ssh_port, connected, elapsed_ms, READY_TIMEOUT_MS) {
                        WaitStep::Ready => (UpSession { phase: UpPhase::Done, no_wait }, UpAction::Finish(Ok(UpOutcome::Started(pid)))),
                        WaitStep::Retry => (UpSession { phase: UpPhase::AwaitReady { ssh_port, pid }, no_wait }, UpAction::WaitReady(ssh_port)),
                        WaitStep::Fail(error) => (
                            UpSession { phase: UpPhase::Done, no_wait },
                            UpAction::Finish(Err(UpError::NotReady { pid, error })),
                        ),
                    }
                },
                _ => out_of_order,
            },
            UpPhase::Done => out_of_order,
        }
    }
}

/// How long a probed launch may take to fail before it is accepted.
pub const GRACE_PERIOD_MS: u64 = 3000;

/// How long the guest's SSH port is awaited.
pub const READY_TIMEOUT_MS: u64 = 30000;

/// The readiness decision with the session's timeout.
pub open spec fn wait_step_outcome(port: u16, connected: bool, elapsed_ms: u64) -> WaitStep {
    if connected {
        WaitStep::Ready
    } else if elapsed_ms >= READY_TIMEOUT_MS {
        WaitStep::Fail(NetError::Timeout(port))
    } else {
        WaitStep::Retry
    }
}

/// Whether `event` answers the action that led to `phase`.
pub open spec fn answers(phase: UpPhase, event: UpEvent) -> bool {
    match phase {
        UpPhase::AwaitState => event is StateLoaded,
        UpPhase::AwaitConfig { .. } => event is ConfigLoaded,
        UpPhase::AwaitPorts { .. } => event is PortsProbed,
        UpPhase::AwaitBinary { .. } => event is BinaryFound,
        UpPhase::AwaitSpawn { .. } => event is Spawned,
        UpPhase::Watching { .. } => event is Polled,
        UpPhase::AwaitClock { .. } => event is Clock,
        UpPhase::AwaitSave { .. } => event is Saved,
        UpPhase::AwaitReady { .. } => event is ReadyPolled,
        UpPhase::Done => false,
    }
}

} // verus!
