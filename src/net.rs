use vstd::prelude::*;
use crate::config::ResolvedConfig;

verus! {

/// Why a port check or a readiness wait failed.
#[derive(Debug, Clone, PartialEq, Eq)]
pub enum NetError {
    PortInUse(u16),
    Io(String),
    Timeout(u16),
}

/// Over the first `n` probe answers: where the first error stands, and the
/// first port found in use.
pub open spec fn scan_ports(ports: Seq<u16>, probes: Seq<Result<bool, NetError>>, n: int)
    -> (Option<int>, Option<u16>)
    decreases n,
{
    if n <= 0 {
        (None, None)
    } else {
        let (e, busy) = scan_ports(ports, probes, n - 1);
        let e2 = if e is None && probes[n - 1] is Err {
            Some(n - 1)
        } else {
            e
        };
        let busy2 = if busy is None && probes[n - 1] == Ok::<bool, NetError>(false) {
            Some(ports[n - 1])
        } else {
            busy
        };
        (e2, busy2)
    }
}

/// The verdict on a set of ports: the first probe error, else the first port
/// in use, else success.
pub open spec fn ports_verdict(ports: Seq<u16>, probes: Seq<Result<bool, NetError>>) -> Result<Seq<u16>, NetError> {
    match scan_ports(ports, probes, ports.len() as int) {
        (Some(j), _) => Err(probes[j]->Err_0),
        (None, Some(p)) => Err(NetError::PortInUse(p)),
        (None, None) => Ok(Seq::empty()),
    }
}

/// The ports that a launch binds on the host: the SSH port, then each
/// forward's host port in order.
pub open spec fn host_ports(cfg: ResolvedConfig) -> Seq<u16> {
    seq![cfg.network.ssh_host_port] + cfg.network.forwards@.map_values(|f: crate::config::PortForward| f.host)
}

/// The host ports to check before a launch.
pub fn ports_to_check(cfg: &ResolvedConfig) -> (r: Vec<u16>)
    ensures
        r@ == host_ports(*cfg),
{
    let mut ports: Vec<u16> = Vec::new();
    ports.push(cfg.network.ssh_host_port);
    let mut i: usize = 0;
    while i < cfg.network.forwards.len()
        invariant
            i <= cfg.network.forwards@.len(),
            ports@ == host_ports(*cfg).subrange(0, i + 1),
        decreases cfg.network.forwards@.len() - i,
    {
        ports.push(cfg.network.forwards[i].host);
        assert(ports@ =~= host_ports(*cfg).subrange(0, i + 2));
        i = i + 1;
    }
    assert(host_ports(*cfg).subrange(0, i + 1) =~= host_ports(*cfg));
    ports
}

/// Checks that every port is free, given the answer of a bind probe for each
/// (`Ok(true)` free, `Ok(false)` in use). The first probe error is returned
/// as it is; otherwise the first port in use is reported.
pub fn check_ports_available(ports: &[u16], probes: Vec<Result<bool, NetError>>) -> (r: Result<Vec<u16>, NetError>)
    requires
        ports@.len() == probes@.len(),
    ensures
        match (r, ports_verdict(ports@, probes@)) {
            (Ok(v), Ok(w)) => v@ == w,
            (Err(a), Err(b)) => a == b,
            _ => false,
        },
{
    let mut err: Option<usize> = None;
    let mut busy: Option<u16> = None;
    let mut i: usize = 0;
    while i < ports.len()
        invariant
            i <= ports@.len(),
            ports@.len() == probes@.len(),
            scan_ports(ports@, probes@, i as int) == (
                match err { Some(j) => Some(j as int), None => None::<int> },
                busy,
            ),
            forall|j: usize| err == Some(j) ==> j < i && probes@[j as int] is Err,
        decreases ports@.len() - i,
    {
        if err.is_none() && probes[i].is_err() {
            err = Some(i);
        }
        if busy.is_none() {
            match &probes[i] {
                Ok(false) => {
                    busy = Some(ports[i]);
                },
                _ => {},
            }
        }
        i = i + 1;
    }
    match err {
        Some(j) => {
            let mut probes = probes;
            match probes.remove(j) {
                Err(e) => Err(e),
                Ok(_) => Ok(Vec::new()),
            }
        },
        None => match busy {
            Some(p) => Err(NetError::PortInUse(p)),
            None => Ok(Vec::new()),
        },
    }
}

/// What the readiness wait does after one connection attempt.
#[derive(Debug, Clone, PartialEq, Eq)]
pub enum WaitStep {
    /// The port accepted a connection.
    Ready,
    /// Try again after the poll interval.
    Retry,
    /// Give up.
    Fail(NetError),
}

/// The readiness wait's decision after one attempt: done on a connection,
/// a timeout once `elapsed_ms` has reached `timeout_ms`, otherwise retry.
pub fn wait_step(port: u16, connected: bool, elapsed_ms: u64, timeout_ms: u64) -> (r: WaitStep)
    ensures
        connected ==> r == WaitStep::Ready,
        !connected && elapsed_ms >= timeout_ms ==> r == WaitStep::Fail(NetError::Timeout(port)),
        !connected && elapsed_ms < timeout_ms ==> r == WaitStep::Retry,
{
    if connected {
        WaitStep::Ready
    } else if elapsed_ms >= timeout_ms {
        WaitStep::Fail(NetError::Timeout(port))
    } else {
        WaitStep::Retry
    }
}

} // verus!
