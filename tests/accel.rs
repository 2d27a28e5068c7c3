use portaqemu::accel::{availability_from_output, choose_accel, AccelAvailability, AccelChoice, AccelError};
use portaqemu::config::AccelPreferred;
use portaqemu::negotiate::{accel_failure_signature, needs_probe, probe_verdict, ProbeVerdict};

fn avail(hw: bool, sw: bool) -> AccelAvailability {
    AccelAvailability { whpx_available: hw, tcg_available: sw }
}

#[test]
fn auto_prefers_hardware() {
    assert_eq!(choose_accel(AccelPreferred::Auto, &avail(true, true)), Ok(AccelChoice::Whpx));
}

#[test]
fn auto_falls_back_to_software() {
    assert_eq!(choose_accel(AccelPreferred::Auto, &avail(false, true)), Ok(AccelChoice::Tcg));
}

#[test]
fn explicit_hardware_unavailable_fails() {
    assert_eq!(choose_accel(AccelPreferred::Whpx, &avail(false, true)), Err(AccelError::WhpxUnavailable));
    assert_eq!(choose_accel(AccelPreferred::Whpx, &avail(false, false)), Err(AccelError::WhpxUnavailable));
}

#[test]
fn choose_is_total_over_all_combinations() {
    let prefs = [AccelPreferred::Auto, AccelPreferred::Whpx, AccelPreferred::Tcg];
    for p in prefs {
        for hw in [false, true] {
            for sw in [false, true] {
                let r = choose_accel(p, &avail(hw, sw));
                match (p, hw, sw) {
                    (AccelPreferred::Auto, true, _) => assert_eq!(r, Ok(AccelChoice::Whpx)),
                    (AccelPreferred::Auto, false, true) => assert_eq!(r, Ok(AccelChoice::Tcg)),
                    (AccelPreferred::Auto, false, false) => assert_eq!(r, Err(AccelError::NoneAvailable)),
                    (AccelPreferred::Whpx, true, _) => assert_eq!(r, Ok(AccelChoice::Whpx)),
                    (AccelPreferred::Whpx, false, _) => assert_eq!(r, Err(AccelError::WhpxUnavailable)),
                    (AccelPreferred::Tcg, _, true) => assert_eq!(r, Ok(AccelChoice::Tcg)),
                    (AccelPreferred::Tcg, _, false) => assert_eq!(r, Err(AccelError::TcgUnavailable)),
                }
            }
        }
    }
}

#[test]
fn detection_reports_software_always() {
    let a = availability_from_output("", "");
    assert_eq!(a, avail(false, true));
    let b = availability_from_output("Accelerators supported in QEMU binary:\ntcg\nwhpx\n", "");
    assert_eq!(b, avail(true, true));
    let c = availability_from_output("", "whpx");
    assert_eq!(c, avail(true, true));
}

#[test]
fn failure_signatures() {
    assert!(accel_failure_signature("failed to initialize whpx: no space left"));
    assert!(accel_failure_signature("acceleration whatever is not available"));
    assert!(accel_failure_signature("no accelerator found"));
    assert!(!accel_failure_signature("could not open disk image"));
    assert!(!accel_failure_signature("acceleration ok"));
}

#[test]
fn probe_verdicts() {
    assert_eq!(probe_verdict(None, "", 100, 3000), ProbeVerdict::KeepWaiting);
    assert_eq!(probe_verdict(None, "", 3000, 3000), ProbeVerdict::Accept);
    assert_eq!(probe_verdict(Some(false), "Failed to initialize WHPX", 200, 3000), ProbeVerdict::Rollback);
    assert_eq!(probe_verdict(Some(false), "No Accelerator Found", 200, 3000), ProbeVerdict::Rollback);
    assert_eq!(probe_verdict(Some(false), "disk image is corrupt", 200, 3000), ProbeVerdict::Accept);
    assert_eq!(probe_verdict(Some(true), "", 200, 3000), ProbeVerdict::Accept);
    assert_eq!(probe_verdict(Some(true), "whpx mentioned", 200, 3000), ProbeVerdict::Accept);
}

#[test]
fn only_automatic_hardware_launch_is_probed() {
    assert!(needs_probe(AccelPreferred::Auto, AccelChoice::Whpx));
    assert!(!needs_probe(AccelPreferred::Auto, AccelChoice::Tcg));
    assert!(!needs_probe(AccelPreferred::Whpx, AccelChoice::Whpx));
}
