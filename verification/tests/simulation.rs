use folsec_auditor::cli::{depth_label, is_confirmed, threads_label, version_line};
use folsec_auditor::errors::AuditorError;
use folsec_auditor::scanner::risk::{RiskKind, Severity};
use folsec_auditor::simulator::{
    anomaly_finding, dummy_file_name, first_failure_note, run_simulation, AclState, Action,
    Outcome, Simulation,
};
use std::time::Duration;

fn failure() -> Outcome {
    Outcome::Failed(AuditorError::Io { path: "p".to_string(), source: "full".to_string() })
}

#[test]
fn dummy_files_are_numbered() {
    assert_eq!(dummy_file_name(0), "folsec_dummy_000.tmp");
    assert_eq!(dummy_file_name(49), "folsec_dummy_049.tmp");
    assert_eq!(dummy_file_name(1234), "folsec_dummy_1234.tmp");
    let names: Vec<String> = (0..50).map(dummy_file_name).collect();
    for (k, name) in names.iter().enumerate() {
        assert!(names[..k].iter().all(|other| other != name));
    }
}

#[test]
fn simulation_takes_its_steps_in_order() {
    let mut sim = Simulation::new(true);
    assert_eq!(sim.next_action().unwrap(), Action::CreateDirectory);
    assert!(!sim.advance(Outcome::Done(0)).unwrap());
    for index in 0..50 {
        assert_eq!(sim.next_action().unwrap(), Action::CreateFile { index });
        assert!(!sim.advance(Outcome::Done(0)).unwrap());
    }
    let mut changes: u32 = 0;
    for file in 0..50 {
        for cycle in 0..50 {
            let state = if cycle % 2 == 0 { AclState::Restrictive } else { AclState::Permissive };
            assert_eq!(sim.next_action().unwrap(), Action::ChangeAcl { file, cycle, state });
            assert!(!sim.advance(Outcome::Done(0)).unwrap());
            changes += 1;
        }
    }
    assert_eq!(changes, 2500);
    for index in 0..50 {
        assert_eq!(sim.next_action().unwrap(), Action::RemoveFile { index });
        assert!(!sim.advance(Outcome::Done(0)).unwrap());
    }
    assert_eq!(sim.next_action().unwrap(), Action::RemoveDirectory);
    assert!(!sim.advance(Outcome::Done(0)).unwrap());
    assert_eq!(sim.next_action().unwrap(), Action::Finished);
    assert!(sim.failures_note().is_none());

    let r = sim.result("C:\\x\\.tmp_folsec_audit".to_string(), Duration::from_millis(900), 800);
    assert!(r.cleaned_up);
    assert_eq!(r.cycling_elapsed_ms, 800);
    assert_eq!(r.elapsed, Duration::from_millis(900));
    assert_eq!(r.finding.path, "C:\\x\\.tmp_folsec_audit");
}

#[test]
fn failed_changes_are_tolerated() {
    let mut sim = Simulation::new(true);
    for _ in 0..51 {
        sim.advance(Outcome::Done(0)).unwrap();
    }
    assert!(sim.advance(Outcome::Done(5)).unwrap());
    assert!(!sim.advance(Outcome::Done(32)).unwrap());
    assert_eq!(
        sim.failures_note().unwrap(),
        "[SIM] 2 API calls returned errors (all tolerated — simulation continued)."
    );
    for _ in 0..2498 {
        sim.advance(Outcome::Done(0)).unwrap();
    }
    for index in 0..50 {
        assert_eq!(sim.next_action().unwrap(), Action::RemoveFile { index });
        assert!(!sim.advance(failure()).unwrap());
    }
    assert_eq!(sim.next_action().unwrap(), Action::RemoveDirectory);
    assert!(!sim.advance(failure()).unwrap());
    assert_eq!(sim.next_action().unwrap(), Action::Finished);
    let r = sim.result("t".to_string(), Duration::from_secs(1), (1u128 << 64) + 7);
    assert!(!r.cleaned_up);
    assert_eq!(r.cycling_elapsed_ms, 7);
}

#[test]
fn setup_failures_end_the_simulation() {
    let mut sim = Simulation::new(true);
    let e = sim.advance(failure()).unwrap_err();
    assert_eq!(e.message(), "I/O error on 'p': full");
    assert_eq!(sim.next_action().unwrap(), Action::CreateDirectory);
    sim.advance(Outcome::Done(0)).unwrap();
    assert!(sim.advance(failure()).is_err());
    assert_eq!(sim.next_action().unwrap(), Action::CreateFile { index: 0 });
    for _ in 0..50 {
        sim.advance(Outcome::Done(0)).unwrap();
    }
    assert!(sim.advance(failure()).is_err());
}

#[test]
fn nothing_is_cycled_on_other_systems() {
    let mut sim = Simulation::new(false);
    for _ in 0..51 {
        sim.next_action().unwrap();
        sim.advance(Outcome::Done(0)).unwrap();
    }
    let e = sim.next_action().unwrap_err();
    assert_eq!(e.message(), "Anomaly simulator setup failed: ACL cycling requires Windows (SetNamedSecurityInfoW is Win32-only)");
}

#[test]
fn whole_simulations_are_run() {
    let run = |windows: bool, outcomes: Vec<Outcome>| {
        run_simulation(windows, outcomes, "t".to_string(), Duration::from_secs(2), 1500)
    };
    let done = |n: usize, code: u32| -> Vec<Outcome> {
        (0..n).map(|_| Outcome::Done(code)).collect()
    };
    let r = run(true, done(2602, 5)).unwrap().unwrap();
    assert!(r.cleaned_up);
    assert_eq!(r.cycling_elapsed_ms, 1500);
    assert!(run(true, done(2601, 0)).unwrap().is_none());
    assert!(run(true, vec![]).unwrap().is_none());

    let mut late = done(2601, 0);
    late.push(failure());
    assert!(!run(true, late).unwrap().unwrap().cleaned_up);

    let mut early = done(20, 0);
    early.push(failure());
    early.push(Outcome::Done(0));
    assert_eq!(run(true, early).unwrap_err().message(), "I/O error on 'p': full");
    assert!(run(false, done(51, 0)).unwrap().is_none());
    let e = run(false, done(52, 0)).unwrap_err();
    assert!(matches!(e, AuditorError::SimulatorSetup(_)));
}

#[test]
fn first_failure_is_described() {
    assert_eq!(
        first_failure_note(32, "C:\\f.tmp", 4),
        "[SIM] SetNamedSecurityInfoW error 32 on 'C:\\f.tmp' cycle 5 (tolerated)."
    );
}

#[test]
fn simulation_finding_is_exact() {
    let f = anomaly_finding("t".to_string(), 1500);
    assert_eq!(f.severity, Severity::Critical);
    assert!(matches!(f.risk, RiskKind::AnomalySimulated { cycles_in_ms: 1500 }));
    assert_eq!(f.description, "FolSec Anomaly Simulator executed 2500 ACL cycles across 50 files in 1500ms using direct Win32 SetNamedSecurityInfoW calls (zero child processes). If your SIEM/EDR did NOT alert during this window, you lack real-time NTFS audit visibility. A real ransomware attack would look identical.");
    assert_eq!(f.remediation_hint, "Enable Windows Security Audit Policy → 'Audit Object Access' and forward Event IDs 4656/4660/4663/4670 to your SIEM. FolSec provides out-of-the-box detection rules for this pattern.");
}

#[test]
fn labels_are_exact() {
    assert_eq!(depth_label(0), "unlimited");
    assert_eq!(depth_label(12), "12");
    assert_eq!(threads_label(0), "auto (all CPUs)");
    assert_eq!(threads_label(8), "8");
    assert_eq!(version_line(true), "folsec-auditor 1.2.0 (windows)");
    assert_eq!(version_line(false), "folsec-auditor 1.2.0 (non-windows (ACL scan disabled))");
}

#[test]
fn only_a_yes_confirms() {
    assert!(is_confirmed("y"));
    assert!(is_confirmed("Y\r\n"));
    assert!(is_confirmed("\t\u{3000} y \u{2028}\n"));
    assert!(!is_confirmed(""));
    assert!(!is_confirmed("\n"));
    assert!(!is_confirmed("yes"));
    assert!(!is_confirmed("n"));
    assert!(!is_confirmed("y y"));
}

#[test]
fn trimming_agrees_with_unicode() {
    for n in 0u32..0x3100 {
        if let Some(c) = char::from_u32(n) {
            let answer = format!("{}y", c);
            assert_eq!(is_confirmed(&answer), c.is_whitespace(), "{:x}", n);
        }
    }
}
