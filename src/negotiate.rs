use vstd::prelude::*;
use crate::accel::AccelChoice;
use crate::config::AccelPreferred;
use crate::text::{contains, lower_of, lowercase, str_contains};

verus! {

/// Whether lower-cased diagnostics name an acceleration failure: the
/// hardware backend mentioned, its initialization failing, acceleration
/// reported as not available, or no accelerator found.
pub open spec fn is_accel_failure_text(lower: Seq<char>) -> bool {
    contains(lower, "whpx"@) || contains(lower, "failed to initialize whpx"@)
        || (contains(lower, "acceleration"@) && contains(lower, "not available"@))
        || contains(lower, "no accelerator found"@)
}

/// Whether a launch must be watched as a capability probe: only an
/// automatic choice that settled on the hardware backend is.
pub open spec fn probes_launch(preferred: AccelPreferred, accel: AccelChoice) -> bool {
    preferred == AccelPreferred::Auto && accel == AccelChoice::Whpx
}

/// The verdict of one poll during the grace period.
#[derive(Debug, Clone, Copy, PartialEq, Eq, Structural)]
pub enum ProbeVerdict {
    /// The child still runs inside the grace period: poll again.
    KeepWaiting,
    /// The hardware backend is accepted.
    Accept,
    /// The launch failed for want of acceleration: roll back to software.
    Rollback,
}

/// The verdict for a child that has exited (`Some(success)`) or still runs
/// (`None`) after `elapsed_ms` of a `grace_ms` window, given its lower-cased
/// diagnostics: only a failed exit that names an acceleration failure rolls
/// back.
pub open spec fn probe_outcome(exited: Option<bool>, lower: Seq<char>, elapsed_ms: u64, grace_ms: u64) -> ProbeVerdict {
    match exited {
        Some(success) => if !success && is_accel_failure_text(lower) {
            ProbeVerdict::Rollback
        } else {
            ProbeVerdict::Accept
        },
        None => if elapsed_ms >= grace_ms {
            ProbeVerdict::Accept
        } else {
            ProbeVerdict::KeepWaiting
        },
    }
}

/// Whether lower-cased diagnostics carry an acceleration-failure signature.
pub fn accel_failure_signature(lower: &str) -> (r: bool)
    ensures
        r == is_accel_failure_text(lower@),
{
    str_contains(lower, "whpx") || str_contains(lower, "failed to initialize whpx")
        || (str_contains(lower, "acceleration") && str_contains(lower, "not available"))
        || str_contains(lower, "no accelerator found")
}

/// Whether the launch with `accel` doubles as the capability probe.
pub fn needs_probe(preferred: AccelPreferred, accel: AccelChoice) -> (r: bool)
    ensures
        r == probes_launch(preferred, accel),
{
    preferred == AccelPreferred::Auto && accel == AccelChoice::Whpx
}

/// The backend relaunched with after a rollback.
pub fn fallback_accel() -> (r: AccelChoice)
    ensures
        r == AccelChoice::Tcg,
{
    AccelChoice::Tcg
}

/// Decides one poll of the grace period. A child that exits inside the
/// window with a non-zero status and an acceleration-failure signature is
/// rolled back; any other exit, and a child still running when the window
/// closes, is accepted.
pub fn probe_verdict(exited: Option<bool>, diagnostics: &str, elapsed_ms: u64, grace_ms: u64) -> (r: ProbeVerdict)
    ensures
        r == probe_outcome(exited, lower_of(diagnostics@), elapsed_ms, grace_ms),
{
    match exited {
        Some(success) => {
            let lower = lowercase(diagnostics);
            if !success && accel_failure_signature(lower.as_str()) {
                ProbeVerdict::Rollback
            } else {
                ProbeVerdict::Accept
            }
        },
        None => if elapsed_ms >= grace_ms {
            ProbeVerdict::Accept
        } else {
            ProbeVerdict::KeepWaiting
        },
    }
}

} // verus!
