use vstd::prelude::*;
use vstd::string::*;
use crate::accel::{choose_accel, chosen, AccelAvailability, AccelChoice, AccelError};
use crate::argv::{build_argv, launch_args};
use crate::config::{AccelPreferred, ResolvedConfig};
use crate::negotiate::{fallback_accel, needs_probe, probe_outcome, probe_verdict, probes_launch, ProbeVerdict};
use crate::text::lower_of;
use crate::text::views;

verus! {

/// Why the virtualization process could not be started.
#[derive(Debug, Clone, PartialEq, Eq)]
pub enum SpawnError {
    Io(String),
    SpawnFailed,
}

/// Why a process could not be terminated.
#[derive(Debug, Clone, PartialEq, Eq)]
pub enum ProcessError {
    NotFound,
    Io(String),
    NotRunning(u32),
}

/// Why the virtualization binary could not be found.
#[derive(Debug, Clone, PartialEq, Eq)]
pub enum LocateError {
    NotFound,
    Io(String),
}

/// Why an atomic write failed.
#[derive(Debug, Clone, PartialEq, Eq)]
pub enum AtomicWriteError {
    Io(String),
    ParentDir,
}

/// One launch to perform: the backend, its arguments, and whether the
/// launch is watched as the capability probe.
#[derive(Debug, Clone)]
pub struct LaunchPlan {
    pub accel: AccelChoice,
    pub argv: Vec<String>,
    pub probe: bool,
}

/// Whether `p` launches `cfg` with `accel`, probing as `probe` says.
pub open spec fn plan_is(p: LaunchPlan, cfg: ResolvedConfig, accel: AccelChoice, probe: bool) -> bool {
    &&& p.accel == accel
    &&& views(p.argv@) == launch_args(cfg, accel)
    &&& p.probe == probe
}

/// Plans the first launch: the backend chosen for the preference and what
/// is available, and a probe only for an automatic hardware choice.
pub fn plan_launch(cfg: &ResolvedConfig, qemu_path: &str, availability: &AccelAvailability) -> (r: Result<LaunchPlan, AccelError>)
    ensures
        match chosen(cfg.accel.preferred, *availability) {
            Ok(a) => r is Ok && plan_is(r->Ok_0, *cfg, a, probes_launch(cfg.accel.preferred, a)),
            Err(e) => r == Err::<LaunchPlan, AccelError>(e),
        },
{
    match choose_accel(cfg.accel.preferred, availability) {
        Ok(accel) => {
            let argv = build_argv(cfg, qemu_path, accel);
            Ok(LaunchPlan { accel, argv, probe: needs_probe(cfg.accel.preferred, accel) })
        },
        Err(e) => Err(e),
    }
}

/// Plans the relaunch after a rollback: software emulation, not probed, so
/// no second rollback can follow.
pub fn plan_fallback(cfg: &ResolvedConfig, qemu_path: &str) -> (r: LaunchPlan)
    ensures
        plan_is(r, *cfg, AccelChoice::Tcg, false),
{
    let accel = fallback_accel();
    let argv = build_argv(cfg, qemu_path, accel);
    LaunchPlan { accel, argv, probe: false }
}

/// What terminating `pid` amounts to, given whether it is alive: a dead
/// process is reported as not running, which callers treat as done.
pub fn terminate_precheck(pid: u32, alive: bool) -> (r: Result<(), ProcessError>)
    ensures
        alive ==> r == Ok::<(), ProcessError>(()),
        !alive ==> r == Err::<(), ProcessError>(ProcessError::NotRunning(pid)),
{
    if alive {
        Ok(())
    } else {
        Err(ProcessError::NotRunning(pid))
    }
}

/// The name of the temporary file written beside the target before the
/// rename: `.<name>.tmp`, with `temp` where the target has no usable name.
pub fn temp_file_name(file_name: Option<&str>) -> (r: String)
    ensures
        match file_name {
            Some(n) => r@ == "."@ + n@ + ".tmp"@,
            None => r@ == "."@ + "temp"@ + ".tmp"@,
        },
{
    let mut s = String::from_str(".");
    match file_name {
        Some(n) => s.append(n),
        None => s.append("temp"),
    }
    s.append(".tmp");
    s
}

/// With hardware unavailable, an automatic preference launches software
/// emulation unprobed, and its arguments forward the SSH port to guest
/// port 22.
pub proof fn lemma_auto_without_hardware(cfg: ResolvedConfig, a: AccelAvailability)
    requires
        cfg.accel.preferred == AccelPreferred::Auto,
        !a.whpx_available,
        a.tcg_available,
    ensures
        chosen(cfg.accel.preferred, a) == Ok::<AccelChoice, AccelError>(AccelChoice::Tcg),
        !probes_launch(cfg.accel.preferred, AccelChoice::Tcg),
        launch_args(cfg, AccelChoice::Tcg)[5] == "tcg"@,
        launch_args(cfg, AccelChoice::Tcg)[21] == crate::argv::netdev_arg(cfg.network.ssh_host_port, cfg.network.forwards@),
        crate::argv::forward_rules(cfg.network.ssh_host_port, cfg.network.forwards@)[0]
            == crate::argv::hostfwd_rule(cfg.network.ssh_host_port, 22),
{
}

/// Where the negotiation of a launch stands.
#[derive(Debug, Clone, Copy, PartialEq, Eq, Structural)]
pub struct Negotiation {
    /// The backend of the process now running.
    pub accel: AccelChoice,
    /// Whether that process is still on probation.
    pub probing: bool,
    /// Whether the one automatic relaunch has been spent.
    pub relaunched: bool,
}

/// What to do after one poll of a launch.
#[derive(Debug, Clone)]
pub enum NegotiationStep {
    /// Poll again after the interval.
    Wait,
    /// The running process is kept.
    Accept,
    /// Terminate what remains of the process and launch this plan instead.
    Relaunch(LaunchPlan),
}

impl Negotiation {
    /// A relaunch runs software emulation and is never probed.
    pub open spec fn wf(self) -> bool {
        self.relaunched ==> !self.probing && self.accel == AccelChoice::Tcg
    }

    /// The negotiation of a freshly spawned plan.
    pub fn start(plan: &LaunchPlan) -> (r: Negotiation)
        ensures
            r.wf(),
            r.accel == plan.accel,
            r.probing == plan.probe,
            !r.relaunched,
    {
        Negotiation { accel: plan.accel, probing: plan.probe, relaunched: false }
    }

    /// Decides after one poll of the running process, which has exited
    /// (`Some(success)`) or not (`None`) after `elapsed_ms` of the grace
    /// period. Only a probed launch can be rolled back, and only once.
    pub fn on_poll(
        self,
        cfg: &ResolvedConfig,
        qemu_path: &str,
        exited: Option<bool>,
        diagnostics: &str,
        elapsed_ms: u64,
        grace_ms: u64,
    ) -> (r: (Negotiation, NegotiationStep))
        requires
            self.wf(),
        ensures
            r.0.wf(),
            !self.probing ==> r.0 == self && r.1 is Accept,
            self.probing ==> match probe_outcome(exited, lower_of(diagnostics@), elapsed_ms, grace_ms) {
                ProbeVerdict::KeepWaiting => r.0 == self && r.1 is Wait,
                ProbeVerdict::Accept => r.0 == (Negotiation { probing: false, ..self }) && r.1 is Accept,
                ProbeVerdict::Rollback => r.0 == (Negotiation { accel: AccelChoice::Tcg, probing: false, relaunched: true })
                    && r.1 is Relaunch && plan_is(r.1->Relaunch_0, *cfg, AccelChoice::Tcg, false),
            },
    {
        if !self.probing {
            return (self, NegotiationStep::Accept);
        }
        match probe_verdict(exited, diagnostics, elapsed_ms, grace_ms) {
            ProbeVerdict::KeepWaiting => (self, NegotiationStep::Wait),
            ProbeVerdict::Accept => (Negotiation { probing: false, ..self }, NegotiationStep::Accept),
            ProbeVerdict::Rollback => {
                let plan = plan_fallback(cfg, qemu_path);
                (Negotiation { accel: AccelChoice::Tcg, probing: false, relaunched: true }, NegotiationStep::Relaunch(plan))
            },
        }
    }
}

/// At most one automatic retry: once the relaunch is spent, every later
/// poll accepts the running process.
pub proof fn lemma_single_relaunch(n: Negotiation)
    requires
        n.wf(),
        n.relaunched,
    ensures
        !n.probing,
        n.accel == AccelChoice::Tcg,
{
}

} // verus!
