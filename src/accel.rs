use vstd::prelude::*;
use vstd::string::*;
use crate::config::AccelPreferred;
use crate::text::{contains, str_contains};

verus! {

/// The backend actually used for a launch.
#[derive(Debug, Clone, Copy, PartialEq, Eq, Structural)]
pub enum AccelChoice {
    Whpx,
    Tcg,
}

/// Which backends the virtualization binary reported.
#[derive(Debug, Clone, Copy, PartialEq, Eq, Structural)]
pub struct AccelAvailability {
    pub whpx_available: bool,
    pub tcg_available: bool,
}

/// Why no backend could be chosen.
#[derive(Debug, Clone, Copy, PartialEq, Eq, Structural)]
pub enum AccelError {
    WhpxUnavailable,
    TcgUnavailable,
    NoneAvailable,
}

/// The choice made for a preference over what is available.
pub open spec fn chosen(preferred: AccelPreferred, a: AccelAvailability) -> Result<AccelChoice, AccelError> {
    match preferred {
        AccelPreferred::Whpx => if a.whpx_available {
            Ok(AccelChoice::Whpx)
        } else {
            Err(AccelError::WhpxUnavailable)
        },
        AccelPreferred::Tcg => if a.tcg_available {
            Ok(AccelChoice::Tcg)
        } else {
            Err(AccelError::TcgUnavailable)
        },
        AccelPreferred::Auto => if a.whpx_available {
            Ok(AccelChoice::Whpx)
        } else if a.tcg_available {
            Ok(AccelChoice::Tcg)
        } else {
            Err(AccelError::NoneAvailable)
        },
    }
}

/// Chooses a backend: an explicit preference is honoured or refused, `Auto`
/// prefers hardware acceleration and falls back to software emulation.
pub fn choose_accel(preferred: AccelPreferred, availability: &AccelAvailability) -> (r: Result<AccelChoice, AccelError>)
    ensures
        r == chosen(preferred, *availability),
{
    match preferred {
        AccelPreferred::Whpx => {
            if availability.whpx_available {
                Ok(AccelChoice::Whpx)
            } else {
                Err(AccelError::WhpxUnavailable)
            }
        },
        AccelPreferred::Tcg => {
            if availability.tcg_available {
                Ok(AccelChoice::Tcg)
            } else {
                Err(AccelError::TcgUnavailable)
            }
        },
        AccelPreferred::Auto => {
            if availability.whpx_available {
                Ok(AccelChoice::Whpx)
            } else if availability.tcg_available {
                Ok(AccelChoice::Tcg)
            } else {
                Err(AccelError::NoneAvailable)
            }
        },
    }
}

/// Availability read from the binary's backend listing: hardware when the
/// combined output names it; software always, as the universal fallback.
pub open spec fn availability_from(stdout: Seq<char>, stderr: Seq<char>) -> AccelAvailability {
    AccelAvailability {
        whpx_available: contains(stdout + " "@ + stderr, "whpx"@),
        tcg_available: true,
    }
}

/// Scans the output of the backend-listing query (empty where the query
/// could not run) for the backends it names.
pub fn availability_from_output(stdout: &str, stderr: &str) -> (r: AccelAvailability)
    ensures
        r == availability_from(stdout@, stderr@),
{
    let mut combined = String::from_str(stdout);
    combined.append(" ");
    combined.append(stderr);
    let whpx_available = str_contains(combined.as_str(), "whpx");
    let mut tcg_available = str_contains(combined.as_str(), "tcg");
    if !tcg_available {
        tcg_available = true;
    }
    AccelAvailability { whpx_available, tcg_available }
}

/// `choose_accel` is total, and with software emulation available, which
/// detection always reports, neither `Auto` nor `Tcg` can fail.
pub proof fn lemma_choose_total(preferred: AccelPreferred, a: AccelAvailability)
    ensures
        chosen(preferred, a) is Ok || chosen(preferred, a) is Err,
        a.tcg_available ==> chosen(AccelPreferred::Auto, a) is Ok,
        a.tcg_available ==> chosen(AccelPreferred::Tcg, a) == Ok::<AccelChoice, AccelError>(AccelChoice::Tcg),
        !a.whpx_available ==> chosen(AccelPreferred::Whpx, a) == Err::<AccelChoice, AccelError>(AccelError::WhpxUnavailable),
{
}

} // verus!
