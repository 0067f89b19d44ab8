use folsec_auditor::errors::{AuditorError, ScanError};
use folsec_auditor::scanner::acl::{
    ace_kind, analyze_ace, decode_access_mask, extract_dacl_findings, flags_grant, identify,
    AceKind, AceReading, DescriptorReading, SecurityDescriptor, Trustee,
};
use folsec_auditor::scanner::risk::{
    classify_path, rate_grant, AuditSummary, PathContext, RiskFinding, RiskKind, Severity,
};
use folsec_auditor::scanner::sid::{
    can_fetch_names, is_well_known_sid, resolve_sid, sid_to_string, try_resolve_well_known,
    ResolvedSid, SidLookup, SidText,
};
use folsec_auditor::scanner::{
    progress_due, run_scan, with_simulation, ScanConfig, ScanEvent, ScanState,
};

fn units(s: &str) -> Vec<u16> {
    s.encode_utf16().collect()
}

fn account(name: &str) -> Trustee {
    Trustee::Resolved(ResolvedSid::Account {
        account_name: name.to_string(),
        domain_name: String::new(),
        display: name.to_string(),
    })
}

fn descriptor(aces: Vec<AceReading>) -> DescriptorReading {
    DescriptorReading::Read(SecurityDescriptor {
        valid: true,
        control: 0x8004,
        dacl_present: true,
        dacl_is_null: false,
        aces,
    })
}

fn config(skip_access_denied: bool) -> ScanConfig {
    ScanConfig {
        root_path: "C:\\".to_string(),
        max_depth: 0,
        follow_symlinks: false,
        skip_access_denied,
    }
}

fn directory(path: &str, findings: Vec<RiskFinding>) -> ScanEvent {
    ScanEvent::Directory { path: path.to_string(), outcome: Ok(findings) }
}

// ── Context and severity ────────────────────────────────────────────────────

#[test]
fn paths_are_classified_in_any_case() {
    assert_eq!(classify_path("D:\\Finance\\2024"), PathContext::Sensitive);
    assert_eq!(classify_path("D:\\TOP_SECRET"), PathContext::Sensitive);
    assert_eq!(classify_path("D:\\PUBLIC"), PathContext::Public);
    assert_eq!(classify_path("D:\\Drop"), PathContext::Public);
    assert_eq!(classify_path("D:\\Data"), PathContext::General);
    assert_eq!(classify_path("D:\\Public\\HR"), PathContext::Sensitive);
    assert_eq!(classify_path(""), PathContext::General);
    // The long s and the Kelvin sign are no ASCII letters.
    assert_eq!(classify_path("D:\\Öffentlich\\ÄDMİN"), PathContext::General);
}

#[test]
fn grants_are_rated_by_trustee_mask_and_context() {
    let full: u32 = 0x1F01FF;
    let modify: u32 = 0x301BF;
    let write: u32 = 0x2;
    assert_eq!(rate_grant("everyone", full, PathContext::Sensitive), Severity::Critical);
    assert_eq!(rate_grant("everyone", modify, PathContext::General), Severity::High);
    assert_eq!(rate_grant("everyone", full, PathContext::Public), Severity::Medium);
    assert_eq!(rate_grant("builtin\\users", full, PathContext::Sensitive), Severity::High);
    assert_eq!(rate_grant("authenticated users", modify, PathContext::General), Severity::Medium);
    assert_eq!(rate_grant("users", full, PathContext::Public), Severity::Medium);
    assert_eq!(rate_grant("everyone", write, PathContext::Sensitive), Severity::High);
    assert_eq!(rate_grant("everyone", write, PathContext::General), Severity::High);
    assert_eq!(rate_grant("everyone", write, PathContext::Public), Severity::Medium);
    assert_eq!(rate_grant("creator owner", full, PathContext::Sensitive), Severity::Medium);
    assert_eq!(rate_grant("users", write, PathContext::Public), Severity::Low);
}

#[test]
fn grant_finding_is_exact() {
    let f = RiskFinding::over_permissive(
        "D:\\Public".to_string(),
        "EVERYONE".to_string(),
        0x1F01FF,
        "Full Control".to_string(),
    );
    assert_eq!(f.severity, Severity::Medium);
    assert_eq!(f.description, "Trustee 'EVERYONE' has over-permissive access (Full Control). [PUBLIC PATH] This creates a wide blast radius for ransomware or insider threats.");
    assert_eq!(f.remediation_hint, "Remove or restrict explicit ACE for 'EVERYONE' on this path. Consider replacing with a specific AD security group.");
}

#[test]
fn orphan_finding_is_exact() {
    let f = RiskFinding::orphaned_sid("D:\\Legal".to_string(), "S-1-5-21-9".to_string());
    assert_eq!(f.severity, Severity::High);
    assert_eq!(f.description, "ACE on 'D:\\Legal' references SID 'S-1-5-21-9' which could not be resolved to an active AD account. This is typically a deleted user or group whose permissions were never cleaned up. This is a SENSITIVE path — stale permissions here are a compliance risk (GDPR/KVKK/SOX).");
    assert_eq!(f.remediation_hint, "Remove ACE for unresolvable SID 'S-1-5-21-9'. Run 'Get-ADObject -Filter {objectSid -eq \"S-1-5-21-9\"}' to confirm deletion.");
    let g = RiskFinding::orphaned_sid("D:\\x".to_string(), "S-1-5-21-9".to_string());
    assert_eq!(g.severity, Severity::Low);
}

#[test]
fn summary_counts_by_severity_and_kind() {
    let findings = vec![
        RiskFinding::null_dacl("a".to_string()),
        RiskFinding::inheritance_break("b".to_string(), true),
        RiskFinding::orphaned_sid("c".to_string(), "S".to_string()),
        RiskFinding::orphaned_sid("HR".to_string(), "S".to_string()),
    ];
    let s = AuditSummary::from_findings(&findings, 10, 3);
    assert_eq!(s.paths_scanned, 10);
    assert_eq!(s.paths_with_errors, 3);
    assert_eq!(s.total_findings, 4);
    assert_eq!(s.critical_count, 1);
    assert_eq!(s.high_count, 1);
    assert_eq!(s.medium_count, 1);
    assert_eq!(s.low_count, 1);
    assert_eq!(s.info_count, 0);
    assert_eq!(s.inheritance_breaks, 1);
    assert_eq!(s.orphaned_sids, 2);
    assert_eq!(s.null_dacls, 1);
    let sum = s.critical_count + s.high_count + s.medium_count + s.low_count + s.info_count;
    assert_eq!(sum, s.total_findings);
}

// ── Access masks and entries ────────────────────────────────────────────────

#[test]
fn masks_are_written_in_words() {
    assert_eq!(decode_access_mask(0x1F01FF), "Full Control");
    assert_eq!(decode_access_mask(0xFFFFFFFF), "Full Control");
    assert_eq!(decode_access_mask(0x1), "Read");
    assert_eq!(decode_access_mask(0x6), "Write Data, Append Data");
    assert_eq!(
        decode_access_mask(0xF0027),
        "Read, Write Data, Append Data, Execute, Delete, Read Control, Write DAC, Write Owner"
    );
    assert_eq!(decode_access_mask(0), "0x00000000");
    assert_eq!(decode_access_mask(0x80000000), "0x80000000");
    assert_eq!(decode_access_mask(0x40), "0x00000040");
}

#[test]
fn entry_kinds_are_told_apart() {
    assert_eq!(ace_kind(0), AceKind::Allow);
    assert_eq!(ace_kind(1), AceKind::Deny);
    assert_eq!(ace_kind(2), AceKind::Other);
    assert_eq!(ace_kind(255), AceKind::Other);
}

#[test]
fn only_broad_trustees_that_can_write_are_flagged() {
    assert!(flags_grant("everyone", 0x2));
    assert!(flags_grant("nt authority\\authenticated users", 0x1301BF));
    assert!(flags_grant("builtin\\users", 0x1F01FF));
    assert!(flags_grant("anonymous logon", 0x10000 | 0x40000));
    assert!(flags_grant("everyone", 0x40));
    assert!(flags_grant("everyone", 0x110));
    assert!(!flags_grant("everyone", 0x1200A9));
    assert!(!flags_grant("corp\\alice", 0x1F01FF));
}

#[test]
fn entries_become_findings() {
    let aces = vec![
        AceReading::Allow { access_mask: 0x1F01FF, trustee: account("Everyone") },
        AceReading::Allow { access_mask: 0x1200A9, trustee: account("Everyone") },
        AceReading::Allow { access_mask: 0x1F01FF, trustee: account("CORP\\alice") },
        AceReading::Allow {
            access_mask: 1,
            trustee: Trustee::Resolved(ResolvedSid::Orphaned { raw_sid: "S-1-5-21-1".to_string() }),
        },
        AceReading::Allow {
            access_mask: 1,
            trustee: Trustee::Failed { raw_sid: "S-1-5-21-2".to_string() },
        },
        AceReading::Deny {
            trustee: Trustee::Resolved(ResolvedSid::Orphaned { raw_sid: "S-1-5-21-3".to_string() }),
        },
        AceReading::Deny { trustee: Trustee::Failed { raw_sid: "S-1-5-21-4".to_string() } },
        AceReading::Deny { trustee: account("Everyone") },
        AceReading::Other,
        AceReading::Unreadable,
    ];
    let findings = extract_dacl_findings("D:\\Data", &descriptor(aces)).unwrap();
    assert_eq!(findings.len(), 5);
    assert!(findings.iter().all(|f| f.path == "D:\\Data"));
    assert!(matches!(&findings[0].risk,
        RiskKind::OverPermissiveAce { trustee, access_mask: 0x1F01FF, access_mask_human }
            if trustee == "Everyone" && access_mask_human == "Full Control"));
    let sids: Vec<&str> = findings[1..]
        .iter()
        .map(|f| match &f.risk {
            RiskKind::OrphanedSid { raw_sid } => raw_sid.as_str(),
            _ => "",
        })
        .collect();
    assert_eq!(sids, ["S-1-5-21-1", "S-1-5-21-2", "S-1-5-21-3", "S-1-5-21-4"]);
}

#[test]
fn well_known_sids_are_never_flagged_as_orphaned() {
    let failed = |sid: &str| Trustee::Failed { raw_sid: sid.to_string() };
    let orphaned =
        |sid: &str| Trustee::Resolved(ResolvedSid::Orphaned { raw_sid: sid.to_string() });
    for sid in ["S-1-5-18", "S-1-1-0", "S-1-5-32-545"] {
        let aces = vec![
            AceReading::Allow { access_mask: 0x1F01FF, trustee: failed(sid) },
            AceReading::Allow { access_mask: 0x1F01FF, trustee: orphaned(sid) },
            AceReading::Deny { trustee: failed(sid) },
            AceReading::Deny { trustee: orphaned(sid) },
        ];
        let found = extract_dacl_findings("D:\\Data", &descriptor(aces)).unwrap();
        assert!(found.iter().all(|f| !matches!(f.risk, RiskKind::OrphanedSid { .. })));
    }
    let mut found = Vec::new();
    analyze_ace("D:\\Data", &failed("S-1-5-18"), 0x1F01FF, &mut found);
    assert!(found.is_empty());
    analyze_ace("D:\\Data", &failed("S-1-1-0"), 0x1F01FF, &mut found);
    assert!(matches!(&found[0].risk,
        RiskKind::OverPermissiveAce { trustee, .. } if trustee == "Everyone"));
    assert_eq!(identify(&failed("S-1-5-32-545")).display(), "BUILTIN\\Users");
    assert!(identify(&failed("S-1-5-21-1")).is_orphaned());
}

#[test]
fn severity_follows_the_rights_and_not_the_case() {
    let rate = |trustee: &str, mask: u32| {
        RiskFinding::over_permissive(
            "D:\\Data".to_string(),
            trustee.to_string(),
            mask,
            "x".to_string(),
        )
        .severity
    };
    for trustee in ["Everyone", "BUILTIN\\Users", "CREATOR OWNER"] {
        assert!(rate(trustee, 0x2) <= rate(trustee, 0x301BF));
        assert!(rate(trustee, 0x301BF) <= rate(trustee, 0x1F01FF));
        assert_eq!(rate(trustee, 0x301BF), rate(&trustee.to_lowercase(), 0x301BF));
        assert!(rate(trustee, 0) > Severity::Info);
    }
}

#[test]
fn one_entry_appends_its_findings() {
    let mut findings = vec![RiskFinding::null_dacl("x".to_string())];
    analyze_ace("x", &account("Everyone"), 0x2, &mut findings);
    analyze_ace("x", &account("Everyone"), 0x1, &mut findings);
    assert_eq!(findings.len(), 2);
}

#[test]
fn descriptors_without_a_list_are_critical() {
    let broken = DescriptorReading::Read(SecurityDescriptor {
        valid: false,
        control: 0x1000,
        dacl_present: true,
        dacl_is_null: false,
        aces: vec![],
    });
    let found = extract_dacl_findings("p", &broken).unwrap();
    assert_eq!(found.len(), 1);
    assert_eq!(found[0].severity, Severity::Critical);
    assert_eq!(found[0].description, "Security descriptor on 'p' is invalid/corrupt.");

    let absent = DescriptorReading::Read(SecurityDescriptor {
        valid: true,
        control: 0x1000,
        dacl_present: false,
        dacl_is_null: true,
        aces: vec![],
    });
    let found = extract_dacl_findings("p", &absent).unwrap();
    assert_eq!(found.len(), 1);
    assert!(matches!(found[0].risk, RiskKind::NullDacl));

    let null = DescriptorReading::Read(SecurityDescriptor {
        valid: true,
        control: 0x1000,
        dacl_present: true,
        dacl_is_null: true,
        aces: vec![],
    });
    let found = extract_dacl_findings("p", &null).unwrap();
    assert_eq!(found.len(), 2);
    assert!(matches!(found[0].risk, RiskKind::InheritanceBreak { had_protected_copy: true }));
    assert!(matches!(found[1].risk, RiskKind::NullDacl));
}

#[test]
fn unread_descriptors_are_errors() {
    let e = extract_dacl_findings("p", &DescriptorReading::UnsupportedPlatform).unwrap_err();
    assert!(matches!(e, AuditorError::NonWindowsPlatform));
    let e = extract_dacl_findings("p", &DescriptorReading::Failed { code: 5 }).unwrap_err();
    assert!(matches!(e, AuditorError::SecurityDescriptorRead { code: 5, .. }));
    assert!(extract_dacl_findings("p", &descriptor(vec![])).unwrap().is_empty());
}

// ── SIDs ────────────────────────────────────────────────────────────────────

#[test]
fn well_known_sids_are_known_by_name() {
    let system = try_resolve_well_known("S-1-5-18").unwrap();
    assert_eq!(system.display(), "NT AUTHORITY\\SYSTEM");
    assert!(!system.is_orphaned());
    assert_eq!(try_resolve_well_known("S-1-1-0").unwrap().display(), "Everyone");
    assert!(try_resolve_well_known("S-1-5-21-1").is_none());
    assert!(is_well_known_sid("S-1-5-32-551"));
    assert!(!is_well_known_sid("s-1-5-18"));
}

#[test]
fn unmapped_sids_are_orphaned_unless_well_known() {
    let lookup = |code: u32, sid: &str| SidLookup::Failed { code, raw_sid: sid.to_string() };
    let orphan = resolve_sid(lookup(1332, "S-1-5-21-1")).unwrap();
    assert!(orphan.is_orphaned());
    assert_eq!(orphan.display(), "S-1-5-21-1");
    let everyone = resolve_sid(lookup(1332, "S-1-1-0")).unwrap();
    assert!(!everyone.is_orphaned());
    let e = resolve_sid(lookup(5, "S-1-1-0")).unwrap_err();
    assert!(matches!(e, AuditorError::SidResolution { code: 5, .. }));
    let e = resolve_sid(SidLookup::UnsupportedPlatform).unwrap_err();
    assert!(matches!(e, AuditorError::NonWindowsPlatform));
}

#[test]
fn names_are_decoded() {
    let r = resolve_sid(SidLookup::Names { account: units("Jürgen😀"), domain: units("CORP") });
    assert_eq!(r.unwrap().display(), "CORP\\Jürgen😀");
    let r = resolve_sid(SidLookup::Names { account: units("Everyone"), domain: vec![] });
    assert_eq!(r.unwrap().display(), "Everyone");
}

#[test]
fn lone_surrogates_are_errors() {
    let r = resolve_sid(SidLookup::Names { account: vec![0x41, 0xD800], domain: vec![] });
    let e = r.unwrap_err();
    assert_eq!(e.message(), "Invalid UTF-16 in Win32 buffer for path '<SID name buffer>': invalid utf-16: lone surrogate found");
    let r = resolve_sid(SidLookup::Names { account: vec![0x41], domain: vec![0xDC00, 0x41] });
    let e = r.unwrap_err();
    assert!(matches!(e, AuditorError::Utf16Decode { path, .. } if path == "<SID domain buffer>"));
}

#[test]
fn sids_are_written_out() {
    assert_eq!(sid_to_string(&SidText::UnsupportedPlatform), "<non-windows>");
    assert_eq!(sid_to_string(&SidText::Unreadable), "<unreadable SID>");
    assert_eq!(sid_to_string(&SidText::Units(units("S-1-5-32-544"))), "S-1-5-32-544");
    assert_eq!(sid_to_string(&SidText::Units(vec![0xD800, 0x53])), "\u{FFFD}S");
}

#[test]
fn names_are_fetched_when_buffers_are_asked_for() {
    assert!(can_fetch_names(None));
    assert!(can_fetch_names(Some(122)));
    assert!(!can_fetch_names(Some(1332)));
}

// ── Scans ───────────────────────────────────────────────────────────────────

#[test]
fn findings_come_out_most_severe_first() {
    let events = vec![
        directory("z", vec![RiskFinding::inheritance_break("z".to_string(), true)]),
        directory("b", vec![
            RiskFinding::orphaned_sid("b".to_string(), "S-1".to_string()),
            RiskFinding::null_dacl("b".to_string()),
            RiskFinding::orphaned_sid("b".to_string(), "S-2".to_string()),
        ]),
        directory("a", vec![RiskFinding::inheritance_break("a".to_string(), true)]),
        directory("c", vec![]),
    ];
    let r = run_scan(&config(false), events);
    let shown: Vec<(&str, Severity)> =
        r.findings.iter().map(|f| (f.path.as_str(), f.severity)).collect();
    assert_eq!(
        shown,
        [
            ("b", Severity::Critical),
            ("a", Severity::Medium),
            ("z", Severity::Medium),
            ("b", Severity::Low),
            ("b", Severity::Low),
        ]
    );
    assert!(matches!(&r.findings[3].risk, RiskKind::OrphanedSid { raw_sid } if raw_sid == "S-1"));
    assert!(matches!(&r.findings[4].risk, RiskKind::OrphanedSid { raw_sid } if raw_sid == "S-2"));
    assert_eq!(r.summary.paths_scanned, 4);
    assert_eq!(r.summary.total_findings, 5);
    assert_eq!(r.summary.critical_count, 1);
    assert!(r.errors.is_empty());
}

#[test]
fn later_findings_of_a_path_replace_earlier_ones() {
    let mut state = ScanState::new();
    let c = config(false);
    state.record(&c, directory("a", vec![RiskFinding::null_dacl("a".to_string())]));
    state.record(&c, directory("a", vec![RiskFinding::inheritance_break("a".to_string(), true)]));
    state.record(&c, directory("a", vec![]));
    assert_eq!(state.paths_scanned(), 3);
    let r = state.finish();
    assert_eq!(r.findings.len(), 1);
    assert!(matches!(r.findings[0].risk, RiskKind::InheritanceBreak { .. }));
}

#[test]
fn many_directories_are_kept_apart() {
    let events: Vec<ScanEvent> = (0..300)
        .map(|k| {
            let path = format!("p{:03}", (k * 7) % 300);
            directory(&path, vec![RiskFinding::null_dacl(path.clone())])
        })
        .collect();
    let r = run_scan(&config(false), events);
    assert_eq!(r.findings.len(), 300);
    for (k, f) in r.findings.iter().enumerate() {
        assert_eq!(f.path, format!("p{:03}", k));
    }
}

#[test]
fn errors_are_kept_or_skipped() {
    let events = || {
        vec![
            ScanEvent::WalkFailed {
                path: None,
                message: "gone".to_string(),
                permission_denied: false,
            },
            ScanEvent::WalkFailed {
                path: Some("w".to_string()),
                message: "denied".to_string(),
                permission_denied: true,
            },
            ScanEvent::Directory {
                path: "d".to_string(),
                outcome: Err(AuditorError::SecurityDescriptorRead {
                    path: "d".to_string(),
                    code: 5,
                }),
            },
            ScanEvent::Directory {
                path: "e".to_string(),
                outcome: Err(AuditorError::NonWindowsPlatform),
            },
        ]
    };
    let all = run_scan(&config(false), events());
    let shown: Vec<(&str, &str)> =
        all.errors.iter().map(|e| (e.path.as_str(), e.message.as_str())).collect();
    assert_eq!(
        shown,
        [
            ("<unknown>", "gone"),
            ("w", "denied"),
            ("d", "Failed to read security descriptor for 'd': Win32 error 0x00000005"),
            ("e", "This tool requires Windows (NTFS ACL scanning is Win32-only)"),
        ]
    );
    assert_eq!(all.summary.paths_with_errors, 4);
    assert_eq!(all.summary.paths_scanned, 2);

    let some = run_scan(&config(true), events());
    let paths: Vec<&str> = some.errors.iter().map(|e| e.path.as_str()).collect();
    assert_eq!(paths, ["<unknown>", "e"]);
}

#[test]
fn simulation_finding_comes_first() {
    let r = run_scan(&config(false), vec![
        directory("a", vec![RiskFinding::null_dacl("a".to_string())]),
    ]);
    let r = with_simulation(r, Some(RiskFinding::inheritance_break("sim".to_string(), false)));
    assert_eq!(r.findings[0].path, "sim");
    assert_eq!(r.findings[1].path, "a");
    assert_eq!(r.summary.total_findings, 2);
    assert_eq!(r.summary.medium_count, 1);
    assert_eq!(r.summary.paths_scanned, 1);
    let r = with_simulation(r, None);
    assert_eq!(r.summary.total_findings, 2);
}

#[test]
fn depth_zero_is_no_limit() {
    let mut c = config(false);
    assert_eq!(c.depth_limit(), None);
    c.max_depth = 3;
    assert_eq!(c.depth_limit(), Some(3));
}

#[test]
fn progress_is_shown_now_and_then() {
    assert!(progress_due(0));
    assert!(!progress_due(499));
    assert!(progress_due(500));
    assert!(progress_due(1000));
}

// ── Errors ──────────────────────────────────────────────────────────────────

#[test]
fn messages_are_exact() {
    let p = || "p".to_string();
    let s = || "why".to_string();
    let cases = [
        (
            AuditorError::SecurityDescriptorRead { path: p(), code: 0xABCDEF },
            "Failed to read security descriptor for 'p': Win32 error 0x00abcdef",
        ),
        (
            AuditorError::NoDacl { path: p() },
            "No DACL present on 'p' (implicit allow-all — critical risk)",
        ),
        (
            AuditorError::SidResolution { sid_string: p(), code: 87 },
            "SID resolution failed for 'p': Win32 error 0x00000057",
        ),
        (
            AuditorError::Utf16Decode { path: p(), source: s() },
            "Invalid UTF-16 in Win32 buffer for path 'p': why",
        ),
        (AuditorError::Traversal(s()), "Directory traversal error: why"),
        (AuditorError::Io { path: p(), source: s() }, "I/O error on 'p': why"),
        (AuditorError::Serialization(s()), "JSON serialization error: why"),
        (AuditorError::SimulatorSetup(s()), "Anomaly simulator setup failed: why"),
        (
            AuditorError::NonWindowsPlatform,
            "This tool requires Windows (NTFS ACL scanning is Win32-only)",
        ),
    ];
    for (error, message) in cases.iter() {
        assert_eq!(&error.message(), message);
    }
    let kept = ScanError::new("q".to_string(), &cases[4].0);
    assert_eq!(kept.path, "q");
    assert_eq!(kept.message, "Directory traversal error: why");
}

// ── Laws on given values ────────────────────────────────────────────────────

#[test]
fn directories_may_come_in_any_order() {
    let event = |path: &str| {
        directory(path, vec![
            RiskFinding::null_dacl(path.to_string()),
            RiskFinding::orphaned_sid(path.to_string(), "S-1".to_string()),
        ])
    };
    let one = run_scan(&config(false), vec![event("a"), event("b"), event("HR")]);
    let other = run_scan(&config(false), vec![event("HR"), event("a"), event("b")]);
    assert_eq!(one.findings.len(), 6);
    for (x, y) in one.findings.iter().zip(other.findings.iter()) {
        assert_eq!((&x.path, x.severity, &x.description), (&y.path, y.severity, &y.description));
    }
    assert_eq!(one.summary.paths_scanned, other.summary.paths_scanned);
}

#[test]
fn other_systems_find_nothing() {
    let events: Vec<ScanEvent> = (0..7)
        .map(|k| {
            let path = format!("p{}", k);
            let outcome = extract_dacl_findings(&path, &DescriptorReading::UnsupportedPlatform);
            ScanEvent::Directory { path, outcome }
        })
        .collect();
    let r = run_scan(&config(false), events);
    assert!(r.findings.is_empty());
    assert_eq!(r.summary.paths_scanned, 7);
    assert_eq!(r.summary.paths_with_errors, 7);
}

#[test]
fn keywords_beat_each_other_in_order() {
    let rate = |path: &str| {
        RiskFinding::over_permissive(
            path.to_string(),
            "Everyone".to_string(),
            0x1F01FF,
            "Full Control".to_string(),
        )
        .severity
    };
    assert_eq!(rate("D:\\temp\\admin"), Severity::Critical);
    assert_eq!(rate("D:\\data"), Severity::High);
    assert_eq!(rate("D:\\temp"), Severity::Medium);
    assert!(rate("D:\\admin") > rate("D:\\data") && rate("D:\\data") > rate("D:\\temp"));
}
