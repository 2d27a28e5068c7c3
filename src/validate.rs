use vstd::prelude::*;
use vstd::string::*;
use crate::config::{PortForward, ResolvedConfig};

verus! {

/// Why a resolved configuration is refused.
#[derive(Debug, Clone, PartialEq, Eq)]
pub enum ValidationError {
    DiskNotFound(String),
    DiskNotReadable(String),
    InvalidMemory(u32),
    InvalidCpus(u32),
    InvalidSshPort(u16),
    InvalidPortForward(u16, u16),
    DuplicateHostPort(u16),
}

/// The problem with forward `k`, if any: a zero port, or a host port already
/// taken by the SSH port or an earlier forward.
pub open spec fn forward_problem(ssh: u16, fwds: Seq<PortForward>, k: int) -> Option<ValidationError> {
    let f = fwds[k];
    if f.host == 0 || f.guest == 0 {
        Some(ValidationError::InvalidPortForward(f.host, f.guest))
    } else if f.host == ssh || (exists|j: int| 0 <= j < k && (#[trigger] fwds[j]).host == f.host) {
        Some(ValidationError::DuplicateHostPort(f.host))
    } else {
        None
    }
}

/// The first problem among the first `n` forwards.
pub open spec fn forwards_problem(ssh: u16, fwds: Seq<PortForward>, n: int) -> Option<ValidationError>
    decreases n,
{
    if n <= 0 {
        None
    } else {
        match forwards_problem(ssh, fwds, n - 1) {
            Some(e) => Some(e),
            None => forward_problem(ssh, fwds, n - 1),
        }
    }
}

/// Once a problem is found among the first forwards, it stays the first.
proof fn lemma_problem_persists(ssh: u16, fwds: Seq<PortForward>, n: int, m: int)
    requires
        n <= m,
    ensures
        forwards_problem(ssh, fwds, n) is Some ==> forwards_problem(ssh, fwds, m) == forwards_problem(ssh, fwds, n),
    decreases m - n,
{
    if n < m {
        lemma_problem_persists(ssh, fwds, n, m - 1);
    }
}

/// Whether `r` is the verdict on `config`: memory, cpus, disk, SSH port and
/// forwards are checked in that order, and the first problem is reported.
pub open spec fn validation_is(r: Result<(), ValidationError>, config: ResolvedConfig, disk_exists: bool, disk_readable: bool) -> bool {
    if config.vm.memory_mb == 0 {
        r == Err::<(), ValidationError>(ValidationError::InvalidMemory(0))
    } else if config.vm.cpus == 0 {
        r == Err::<(), ValidationError>(ValidationError::InvalidCpus(0))
    } else if !disk_exists {
        r is Err && r->Err_0 is DiskNotFound && r->Err_0->DiskNotFound_0@ == config.vm.disk@
    } else if !disk_readable {
        r is Err && r->Err_0 is DiskNotReadable && r->Err_0->DiskNotReadable_0@ == config.vm.disk@
    } else if config.network.ssh_host_port == 0 {
        r == Err::<(), ValidationError>(ValidationError::InvalidSshPort(0))
    } else {
        match forwards_problem(config.network.ssh_host_port, config.network.forwards@, config.network.forwards@.len() as int) {
            Some(e) => r == Err::<(), ValidationError>(e),
            None => r == Ok::<(), ValidationError>(()),
        }
    }
}

/// Validates a resolved configuration, given whether its disk image exists
/// and whether its metadata can be read.
pub fn validate_config(config: &ResolvedConfig, disk_exists: bool, disk_readable: bool) -> (r: Result<(), ValidationError>)
    ensures
        validation_is(r, *config, disk_exists, disk_readable),
{
    if config.vm.memory_mb == 0 {
        return Err(ValidationError::InvalidMemory(config.vm.memory_mb));
    }
    if config.vm.cpus == 0 {
        return Err(ValidationError::InvalidCpus(config.vm.cpus));
    }
    if !disk_exists {
        return Err(ValidationError::DiskNotFound(String::from_str(config.vm.disk.as_str())));
    }
    if !disk_readable {
        return Err(ValidationError::DiskNotReadable(String::from_str(config.vm.disk.as_str())));
    }
    let ssh = config.network.ssh_host_port;
    if ssh == 0 {
        return Err(ValidationError::InvalidSshPort(ssh));
    }
    let fwds = &config.network.forwards;
    let mut host_ports: Vec<u16> = Vec::new();
    host_ports.push(ssh);
    let mut i: usize = 0;
    while i < fwds.len()
        invariant
            i <= fwds@.len(),
            host_ports@.len() == i + 1,
            host_ports@[0] == ssh,
            forall|j: int| 0 <= j < i ==> host_ports@[j + 1] == (#[trigger] fwds@[j]).host,
            forwards_problem(ssh, fwds@, i as int) is None,
            config.vm.memory_mb != 0,
            config.vm.cpus != 0,
            disk_exists,
            disk_readable,
            ssh != 0,
            ssh == config.network.ssh_host_port,
            fwds@ == config.network.forwards@,
        decreases fwds@.len() - i,
    {
        let f = fwds[i];
        proof {
            lemma_problem_persists(ssh, fwds@, i + 1, fwds@.len() as int);
        }
        if f.host == 0 || f.guest == 0 {
            return Err(ValidationError::InvalidPortForward(f.host, f.guest));
        }
        let mut k: usize = 0;
        let mut seen = false;
        while k < host_ports.len()
            invariant
                k <= host_ports@.len(),
                seen <==> exists|m: int| 0 <= m < k && host_ports@[m] == f.host,
            decreases host_ports@.len() - k,
        {
            if host_ports[k] == f.host {
                seen = true;
            }
            k = k + 1;
        }
        proof {
            if seen {
                let m = choose|m: int| 0 <= m < k && host_ports@[m] == f.host;
                if m > 0 {
                    assert(fwds@[m - 1].host == f.host);
                }
            } else {
                assert(host_ports@[0] != f.host);
                assert forall|j: int| 0 <= j < i implies (#[trigger] fwds@[j]).host != f.host by {
                    assert(host_ports@[j + 1] != f.host);
                }
            }
        }
        if seen {
            return Err(ValidationError::DuplicateHostPort(f.host));
        }
        host_ports.push(f.host);
        i = i + 1;
    }
    Ok(())
}

} // verus!
