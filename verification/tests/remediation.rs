use folsec_auditor::lines::Lines;
use folsec_auditor::remediation::block::emit_aggregated_path_block;
use folsec_auditor::remediation::findings::{
    count_actionable, dedup_findings, escape_ps_path, finding_dedup_key, first_of_each_key,
    grant_key, is_actionable, manual_guidance, severity_points, truncate_desc,
};
use folsec_auditor::remediation::folders::{group_by_path, rank_folders};
use folsec_auditor::remediation::script::{
    emit_dry_run_banner, emit_footer, emit_header, emit_header_at, emit_manual_triage_comment,
    emit_safety_boilerplate, emit_top5_riskiest_folders, refs_of,
};
use folsec_auditor::remediation::{generate_remediation_script, remediation_script_at};
use folsec_auditor::scanner::risk::{RiskFinding, RiskKind, Severity};
use folsec_auditor::simulator::anomaly_finding;

const TIME: &str = "2024-05-06 07:08:09 +0200";

fn everyone_on(path: &str) -> RiskFinding {
    RiskFinding::over_permissive(
        path.to_string(),
        "Everyone".to_string(),
        0x1F01FF,
        "FullControl".to_string(),
    )
}

fn orphan_on(path: &str, sid: &str) -> RiskFinding {
    RiskFinding::orphaned_sid(path.to_string(), sid.to_string())
}

fn code_of(line: &str) -> &str {
    line.trim_start_matches(' ')
}

// ── Scripts ─────────────────────────────────────────────────────────────────

#[test]
fn generated_script_contains_safety_boilerplate() {
    let findings = vec![
        RiskFinding::over_permissive(
            r"C:\Shares\HR".to_string(),
            "Everyone".to_string(),
            0x1F01FF,
            "FullControl".to_string(),
        ),
        RiskFinding::inheritance_break(r"C:\Shares\Finance".to_string(), true),
        RiskFinding::orphaned_sid(
            r"C:\Shares\Legal".to_string(),
            "S-1-5-21-1234567890-987654321-111111111-9999".to_string(),
        ),
    ];

    let content = generate_remediation_script(&findings, r"C:\Shares");

    // Enterprise safety checks
    assert!(content.contains("#Requires -RunAsAdministrator"));
    assert!(content.contains("$ErrorActionPreference = 'Stop'"));
    assert!(content.contains("Set-StrictMode -Version Latest"));
    assert!(content.contains("Start-Transcript"));
    assert!(content.contains("APPLY CHANGES"));

    // Dry-run markers
    assert!(content.contains("[DRY-RUN BLOCK"));
    assert!(content.contains("$LiveMode = $false"));

    // -WhatIf safety on Set-Acl
    assert!(content.contains("Set-Acl -LiteralPath $targetPath -AclObject $acl -WhatIf"));

    // Targeted fix types
    assert!(content.contains("OVER-PERMISSIVE ACE"));
    assert!(content.contains("INHERITANCE BREAK"));
    assert!(content.contains("SetAccessRuleProtection($false, $false)"));
    assert!(content.contains("ORPHANED SID"));

    // Aggregated block structure
    assert!(content.contains("PATH BLOCK #"));
    assert!(content.contains("$ActionCount +="));
}

#[test]
fn non_actionable_findings_are_comment_only() {
    let findings = vec![RiskFinding::null_dacl(r"C:\Shares\Public".to_string())];

    let content = generate_remediation_script(&findings, r"C:\Shares");

    // Should have the manual triage marker
    assert!(content.contains("MANUAL TRIAGE REQUIRED"));
    // Should NOT have any $ActionCount increment for this finding
    assert!(!content.contains("$ActionCount +="));
}

#[test]
fn same_path_findings_are_aggregated() {
    let shared_path = r"C:\Shares\HR".to_string();
    let findings = vec![
        RiskFinding::over_permissive(
            shared_path.clone(),
            "Everyone".to_string(),
            0x1F01FF,
            "FullControl".to_string(),
        ),
        RiskFinding::inheritance_break(shared_path.clone(), true),
        RiskFinding::orphaned_sid(
            shared_path.clone(),
            "S-1-5-21-1234567890-987654321-111111111-9999".to_string(),
        ),
    ];

    let content = generate_remediation_script(&findings, r"C:\Shares");

    // Should contain exactly ONE path block (block #1), not three separate ones.
    assert!(content.contains("PATH BLOCK #1 — 3 finding(s)"));
    // Should NOT have a second path block since all findings share the same path.
    assert!(!content.contains("PATH BLOCK #2"));

    // The single block should reference all three finding types as sub-actions.
    assert!(content.contains("OVER-PERMISSIVE ACE"));
    assert!(content.contains("INHERITANCE BREAK"));
    assert!(content.contains("ORPHANED SID"));

    // The aggregated action count should be 3 in one increment.
    assert!(content.contains("$ActionCount += 3"));
}

#[test]
fn path_escaping() {
    assert_eq!(escape_ps_path(r"C:\Users\O'Brien\Docs"), r"C:\Users\O''Brien\Docs");
    assert_eq!(escape_ps_path(r"C:\Normal\Path"), r"C:\Normal\Path");
}

#[test]
fn actionable_classification() {
    assert!(is_actionable(&RiskKind::OverPermissiveAce {
        trustee: "Everyone".to_string(),
        access_mask: 0x1F01FF,
        access_mask_human: "FullControl".to_string(),
    }));
    assert!(is_actionable(&RiskKind::InheritanceBreak {
        had_protected_copy: false,
    }));
    assert!(is_actionable(&RiskKind::OrphanedSid {
        raw_sid: "S-1-5-21-0".to_string(),
    }));
    assert!(!is_actionable(&RiskKind::NullDacl));
    assert!(!is_actionable(&RiskKind::AnomalySimulated {
        cycles_in_ms: 100,
    }));
}

#[test]
fn script_starts_with_bom_and_ends_with_transcript() {
    let script = remediation_script_at(&[], r"C:\Shares", TIME);
    assert!(script.starts_with("\u{FEFF}# ═══"));
    assert!(script.ends_with("\nStop-Transcript | Out-Null\n"));
    assert!(script.contains("#  Generated:        2024-05-06 07:08:09 +0200\n"));
    assert!(!script.contains("TOP 5 RISKIEST FOLDERS"));
    assert!(!script.contains("PATH BLOCK"));
    assert!(script.contains("Write-Host \"  Total actions:    0 (actionable findings)\""));
}

#[test]
fn script_carries_the_time_of_day() {
    let script = generate_remediation_script(&[], "root");
    let line = script.lines().find(|l| l.starts_with("#  Generated:        ")).unwrap();
    let time = &line["#  Generated:        ".len()..];
    let bytes = time.as_bytes();
    let n = bytes.len();
    assert!(n >= 25);
    assert!(bytes[n - 5] == b'+' || bytes[n - 5] == b'-');
    assert_eq!(bytes[n - 6], b' ');
    assert_eq!(bytes[n - 9], b':');
    assert_eq!(bytes[n - 12], b':');
    assert!(!time.contains('%'));
}

#[test]
fn no_line_runs_a_change() {
    let findings = vec![
        everyone_on(r"C:\Shares\HR"),
        RiskFinding::inheritance_break(r"C:\Shares\Finance".to_string(), true),
        orphan_on(r"C:\Shares\Legal", "S-1-5-21-1-2-3-4"),
        RiskFinding::null_dacl(r"C:\Shares\Public".to_string()),
        anomaly_finding(r"C:\Shares\.tmp".to_string(), 12),
    ];
    let script = remediation_script_at(&findings, r"C:\Shares", TIME);
    let mut off: usize = 0;
    let mut gate: usize = 0;
    let mut commits: usize = 0;
    for (k, line) in script.lines().enumerate() {
        let code = code_of(line);
        if code.starts_with("$LiveMode") {
            assert_eq!(code, "$LiveMode = $false");
            assert_eq!(off, 0);
            off = k;
        }
        if code.starts_with("if ($confirm -ne 'APPLY CHANGES')") {
            gate = k;
        }
        if code.starts_with("Set-Acl") {
            assert!(code.ends_with(" -WhatIf"));
            assert!(gate > off && k > gate);
            commits += 1;
        }
        assert!(!code.starts_with("icacls"));
    }
    assert!(off > 0);
    assert_eq!(commits, 3);
}

#[test]
fn triage_lines_are_comments() {
    let mut script = String::new();
    let finding = RiskFinding::null_dacl(r"C:\Shares\Public".to_string());
    let guidance = manual_guidance(&finding.risk).unwrap();
    emit_manual_triage_comment(&mut script, 7, &finding, &guidance);
    assert!(script.lines().all(|l| l.is_empty() || l.starts_with('#')));
    assert!(script.contains("# INFO (Finding #7) — MANUAL TRIAGE REQUIRED [Critical]\n"));
    assert!(script.contains("# Path:     C:\\Shares\\Public\n"));
    assert!(script.contains(
        "# Guidance: NULL DACL requires manual triage — apply a restrictive explicit DACL.\n"
    ));
    assert_eq!(script.lines().count(), 10);
}

#[test]
fn triage_is_numbered_among_all_findings() {
    let findings = vec![
        everyone_on("a"),
        RiskFinding::null_dacl("b".to_string()),
        everyone_on("c"),
        anomaly_finding("d".to_string(), 34),
    ];
    let script = remediation_script_at(&findings, "root", TIME);
    assert!(script.contains("# INFO (Finding #2) —"));
    assert!(script.contains("# INFO (Finding #4) —"));
    assert!(script.contains("# Guidance: SIEM visibility gap detected (34ms cycling). Configure audit policies to detect rapid ACL changes.\n"));
    assert!(script.contains("#  Total findings:   4\n"));
    assert!(script.contains("#  Actionable fixes: 2\n"));
    assert!(script.contains("  Total actions:    2 (actionable findings)"));
}

#[test]
fn blocks_are_ordered_by_path() {
    let findings = vec![everyone_on("b"), everyone_on("C"), everyone_on("a"), everyone_on("b")];
    let script = remediation_script_at(&findings, "root", TIME);
    let c = script.find("# PATH BLOCK #1 — 1 finding(s) on this path\n# Path: C\n").unwrap();
    let a = script.find("# PATH BLOCK #2 — 1 finding(s) on this path\n# Path: a\n").unwrap();
    let b = script.find("# PATH BLOCK #3 — 1 finding(s) on this path\n# Path: b\n").unwrap();
    assert!(c < a && a < b);
    assert!(!script.contains("PATH BLOCK #4"));
    assert!(script.contains("  Total actions:    3 (actionable findings)"));
}

#[test]
fn block_text_is_exact() {
    let grant = RiskFinding::over_permissive(
        "C:\\O'Neil".to_string(),
        "Everyone".to_string(),
        0x1301BF,
        "Modify".to_string(),
    );
    let break_ = RiskFinding::inheritance_break("C:\\O'Neil".to_string(), true);
    let orphan = orphan_on("C:\\O'Neil", "S-1-5-21-7");
    let mut script = String::new();
    emit_aggregated_path_block(&mut script, 12, "C:\\O'Neil", &vec![&grant, &break_, &orphan]);
    let expected = [
        "# ══════════════════════════════════════════════════════════════════════════════",
        "# PATH BLOCK #12 — 3 finding(s) on this path",
        "# Path: C:\\O'Neil",
        "#",
        "#   1. [High] OVER-PERMISSIVE ACE: 'Everyone' with Modify (0x001301BF)",
        "#   2. [Medium] INHERITANCE BREAK (had_protected_copy=true)",
        "#   3. [Low] ORPHANED SID: S-1-5-21-7",
        "#",
        "# Recommendation: Review all sub-actions below before enabling live mode.",
        "# ══════════════════════════════════════════════════════════════════════════════",
        "",
        "$ActionCount += 3",
        "$targetPath = 'C:\\O''Neil'",
        "",
        "if (Test-Path -LiteralPath $targetPath) {",
        "    if ($LiveMode) {",
        "        # ── LIVE: Apply all remediation actions for this path ──",
        "        try {",
        "            $acl = Get-Acl -LiteralPath $targetPath",
        "            $modified = $false",
        "",
        "",
        "            # Sub-action 1: Remove over-permissive ACE for 'Everyone' (Modify, 0x001301BF)",
        "            $rulesToRemove = $acl.Access | Where-Object {",
        "                $_.IdentityReference.Value -eq 'Everyone' -and $_.AccessControlType -eq 'Allow'",
        "            }",
        "            foreach ($rule in $rulesToRemove) {",
        "                $acl.RemoveAccessRule($rule) | Out-Null",
        "                $modified = $true",
        "            }",
        "            Write-Host \"    [SUB-ACTION 1] Removed ACE for 'Everyone' (Modify)\" -ForegroundColor Green",
        "",
        "            # Sub-action 2: Re-enable inheritance",
        "            # SetAccessRuleProtection($isProtected, $preserveInheritance)",
        "            #   $false = not protected = inheritance flows through",
        "            #   $false = do not preserve existing explicit ACEs",
        "            $acl.SetAccessRuleProtection($false, $false)",
        "            $modified = $true",
        "            Write-Host \"    [SUB-ACTION 2] Re-enabled inheritance\" -ForegroundColor Green",
        "",
        "            # Sub-action 3: Remove orphaned SID 'S-1-5-21-7'",
        "            $orphanSid3 = New-Object System.Security.Principal.SecurityIdentifier('S-1-5-21-7')",
        "            $orphanRules = $acl.Access | Where-Object {",
        "                $_.IdentityReference.Value -eq $orphanSid3.Value",
        "            }",
        "            foreach ($rule in $orphanRules) {",
        "                $acl.RemoveAccessRule($rule) | Out-Null",
        "                $modified = $true",
        "            }",
        "            Write-Host \"    [SUB-ACTION 3] Removed orphaned SID 'S-1-5-21-7'\" -ForegroundColor Green",
        "",
        "            if ($modified) {",
        "                Set-Acl -LiteralPath $targetPath -AclObject $acl -WhatIf",
        "                # NOTE: Remove '-WhatIf' above ONLY after thorough review.",
        "                # Set-Acl -LiteralPath $targetPath -AclObject $acl",
        "                $SuccessCount++",
        "                Write-Host \"  [APPLIED] All 3 sub-actions applied on: $targetPath\" -ForegroundColor Green",
        "            }",
        "        } catch {",
        "            $ErrorCount++",
        "            Write-Host \"  [ERROR] Failed to modify ACL on: $targetPath — $_\" -ForegroundColor Red",
        "        }",
        "    } else {",
        "        # ── DRY-RUN: Describe what would happen ──",
        "        Write-Host \"[DRY-RUN BLOCK # 12] Path: $targetPath (3 action(s))\" -ForegroundColor Cyan",
        "        Write-Host \"  {\"1\"}.  Would REMOVE explicit Allow ACE for 'Everyone' — Modify (0x001301BF)\" -ForegroundColor Yellow",
        "        Write-Host \"  {\"2\"}.  Would RE-ENABLE INHERITANCE (had_protected_copy=true)\" -ForegroundColor Magenta",
        "        Write-Host \"  {\"3\"}.  Would REMOVE orphaned SID: S-1-5-21-7\" -ForegroundColor DarkYellow",
        "    }",
        "} else {",
        "    $SkippedCount++",
        "    Write-Host \"  [SKIPPED BLOCK # 12] Path not found: $targetPath\" -ForegroundColor DarkGray",
        "}",
        "",
    ];
    let lines: Vec<&str> = script.lines().collect();
    assert_eq!(lines, expected);
    assert!(script.ends_with("}\n\n"));
}

#[test]
fn dashboard_text_is_exact() {
    let findings = vec![
        RiskFinding::null_dacl("p1".to_string()),
        RiskFinding::null_dacl("p1".to_string()),
        RiskFinding::null_dacl("it's".to_string()),
        RiskFinding::inheritance_break("p3".to_string(), true),
    ];
    let mut script = String::new();
    emit_top5_riskiest_folders(&mut script, &findings);
    let lines: Vec<&str> = script.lines().collect();
    assert_eq!(lines[1], "# TOP 5 RISKIEST FOLDERS");
    assert_eq!(lines[8], "Write-Host \"│  #1 [Score:  20] (2 finding(s))\" -ForegroundColor White");
    assert_eq!(lines[9], "Write-Host \"│     ██████████\" -ForegroundColor Red");
    assert_eq!(lines[10], "Write-Host \"│     p1\" -ForegroundColor Gray");
    assert_eq!(lines[11], "Write-Host \"│\" -ForegroundColor Red");
    assert_eq!(lines[12], "Write-Host \"│  #2 [Score:  10] (1 finding(s))\" -ForegroundColor White");
    assert_eq!(lines[13], "Write-Host \"│     █████\" -ForegroundColor Yellow");
    assert_eq!(lines[14], "Write-Host \"│     it''s\" -ForegroundColor Gray");
    assert_eq!(lines[16], "Write-Host \"│  #3 [Score:   2] (1 finding(s))\" -ForegroundColor White");
    assert_eq!(lines[17], "Write-Host \"│     █\" -ForegroundColor DarkYellow");
    assert_eq!(lines.len(), 22);
}

#[test]
fn bar_is_capped() {
    let findings: Vec<RiskFinding> =
        (0..9).map(|_| RiskFinding::null_dacl("p".to_string())).collect();
    let mut script = String::new();
    emit_top5_riskiest_folders(&mut script, &findings);
    let bar = "█".repeat(20);
    assert!(script.contains(&format!("│     {}\" -ForegroundColor Red", bar)));
    assert!(!script.contains(&"█".repeat(21)));
    assert!(script.contains("[Score:  90]"));
}

#[test]
fn header_and_banner_show_the_counts() {
    let findings = vec![everyone_on("a"), RiskFinding::null_dacl("b".to_string())];
    let mut header = String::new();
    emit_header_at(&mut header, &findings, r"\\server\HR", TIME);
    assert!(header.contains("#  Scan root:        \\\\server\\HR\n"));
    assert!(header.contains("#  Total findings:   2\n"));
    assert!(header.contains("#  Actionable fixes: 1\n"));
    assert!(header.contains("#  Generator:        FolSec Auditor v1.2.0\n"));
    assert_eq!(header.lines().count(), 28);

    let mut banner = String::new();
    emit_dry_run_banner(&mut banner, r"\\server\HR", &findings);
    assert!(banner.contains("Write-Host \"  Scan Root:        \\\\server\\HR\" -ForegroundColor Gray\n"));
    assert!(banner.contains("Write-Host \"  Total Findings:   2\" -ForegroundColor Gray\n"));
    assert!(banner.contains("Write-Host \"  Actionable Fixes: 1\" -ForegroundColor Gray\n"));
    assert_eq!(banner.lines().count(), 21);
}

#[test]
fn sections_append() {
    let mut script = "x\n".to_string();
    emit_header(&mut script, &[], "r");
    emit_safety_boilerplate(&mut script);
    emit_footer(&mut script, 3);
    assert!(script.starts_with("x\n# ═"));
    assert!(script.contains("Write-Host \"  Total actions:    3 (actionable findings)\" -ForegroundColor Gray\n"));
    assert_eq!(script.lines().count(), 1 + 28 + 44 + 34);
}

// ── Findings ────────────────────────────────────────────────────────────────

#[test]
fn dedup_keys_are_exact() {
    let grant = RiskFinding::over_permissive(
        "p".to_string(),
        "BUILTIN\\Users".to_string(),
        2,
        "Write Data".to_string(),
    );
    assert_eq!(finding_dedup_key(&grant), "OPA|builtin\\users|Write Data|00000002");
    assert_eq!(
        finding_dedup_key(&RiskFinding::inheritance_break("p".to_string(), true)),
        "IB|true"
    );
    assert_eq!(
        finding_dedup_key(&RiskFinding::inheritance_break("p".to_string(), false)),
        "IB|false"
    );
    assert_eq!(finding_dedup_key(&orphan_on("p", "S-1-5-21-7")), "OS|S-1-5-21-7");
    assert_eq!(finding_dedup_key(&RiskFinding::null_dacl("p".to_string())), "ND");
    assert_eq!(finding_dedup_key(&anomaly_finding("p".to_string(), 1234)), "AS|1234");
}

#[test]
fn lookalikes_are_shown_once() {
    let first = RiskFinding::over_permissive(
        "p".to_string(),
        "BUILTIN\\Users".to_string(),
        0x1301BF,
        "Modify".to_string(),
    );
    let second = RiskFinding::over_permissive(
        "p".to_string(),
        "BUILTIN\\users".to_string(),
        0x1301BF,
        "Modify".to_string(),
    );
    let other = RiskFinding::over_permissive(
        "p".to_string(),
        "BUILTIN\\Users".to_string(),
        2,
        "Write Data".to_string(),
    );
    let unique = dedup_findings(&vec![&first, &second, &other, &first]);
    assert_eq!(unique.len(), 2);
    assert!(matches!(&unique[0].risk, RiskKind::OverPermissiveAce { access_mask: 0x1301BF, .. }));
    assert!(matches!(&unique[1].risk, RiskKind::OverPermissiveAce { access_mask: 2, .. }));

    let script = remediation_script_at(&[first, second, other], "root", TIME);
    assert!(script.contains("$ActionCount += 2\n"));
    assert!(script.contains("  Total actions:    2 (actionable findings)"));
}

#[test]
fn first_of_each_given_key_stays() {
    assert_eq!(
        grant_key("everyone", "Full Control", 0x1F01FF),
        "OPA|everyone|Full Control|001F01FF"
    );
    let findings: Vec<RiskFinding> = (0..5).map(|k| orphan_on("p", &format!("{}", k))).collect();
    let keys: Vec<String> = ["x", "y", "x", "z", "y"].iter().map(|k| k.to_string()).collect();
    let kept = first_of_each_key(&refs_of(&findings), &keys);
    let shown: Vec<String> = kept.iter().map(|f| finding_dedup_key(f)).collect();
    assert_eq!(shown, ["OS|0", "OS|1", "OS|3"]);
}

#[test]
fn grants_with_different_masks_are_told_apart() {
    let grant = |mask: u32| {
        RiskFinding::over_permissive(
            "C:\\X".to_string(),
            "Everyone".to_string(),
            mask,
            "Full Control".to_string(),
        )
    };
    let (f, g) = (grant(0x1F01FF), grant(0x1F03FF));
    assert_ne!(finding_dedup_key(&f), finding_dedup_key(&g));
    let script = remediation_script_at(&[f, g], "root", TIME);
    assert!(script.contains("Full Control (0x001F01FF)"));
    assert!(script.contains("Full Control (0x001F03FF)"));
    assert!(script.contains("$ActionCount += 2\n"));
}

#[test]
fn points_per_severity() {
    assert_eq!(severity_points(&Severity::Critical), 10);
    assert_eq!(severity_points(&Severity::High), 5);
    assert_eq!(severity_points(&Severity::Medium), 2);
    assert_eq!(severity_points(&Severity::Low), 1);
    assert_eq!(severity_points(&Severity::Info), 0);
}

#[test]
fn actionable_findings_are_counted() {
    let findings = vec![
        everyone_on("a"),
        RiskFinding::null_dacl("b".to_string()),
        orphan_on("c", "S-1-5-21-1"),
        anomaly_finding("d".to_string(), 1),
    ];
    assert_eq!(count_actionable(&findings), 2);
    assert!(manual_guidance(&findings[0].risk).is_none());
}

#[test]
fn descriptions_are_cut_at_a_space() {
    let short = "x".repeat(200);
    assert_eq!(truncate_desc(&short), short);
    let words = format!("{} {}", "a".repeat(150), "b".repeat(100));
    assert_eq!(truncate_desc(&words), "a".repeat(150));
    let solid = "c".repeat(300);
    assert_eq!(truncate_desc(&solid), "c".repeat(200));
    let edge = format!("{} tail", "d".repeat(199));
    assert_eq!(truncate_desc(&edge), "d".repeat(199));
    let behind = format!("{} tail", "d".repeat(200));
    assert_eq!(truncate_desc(&behind), "d".repeat(200));
}

#[test]
fn descriptions_are_counted_in_characters() {
    let accents = format!("a{}", "é".repeat(100));
    assert_eq!(truncate_desc(&accents), accents);
    let wide = "語".repeat(200);
    assert_eq!(truncate_desc(&wide), wide);
    assert_eq!(truncate_desc(&"語".repeat(201)), wide);
    let mixed = format!("{} {}", "é".repeat(150), "😀".repeat(60));
    assert_eq!(truncate_desc(&mixed), "é".repeat(150));
    let leading = format!(" {}", "x".repeat(300));
    assert_eq!(truncate_desc(&leading), "");
}

#[test]
fn quotes_are_doubled() {
    assert_eq!(escape_ps_path("''"), "''''");
    assert_eq!(escape_ps_path(""), "");
    assert_eq!(escape_ps_path("a'b'c"), "a''b''c");
}

// ── Folders ─────────────────────────────────────────────────────────────────

#[test]
fn groups_hold_the_findings_of_a_path_in_order() {
    let findings = vec![
        orphan_on("b", "1"),
        orphan_on("a", "2"),
        orphan_on("b", "3"),
        orphan_on("a", "4"),
        orphan_on("ab", "5"),
    ];
    let refs = refs_of(&findings);
    let groups = group_by_path(&refs);
    let paths: Vec<&str> = groups.iter().map(|g| g.path).collect();
    assert_eq!(paths, ["a", "ab", "b"]);
    let sids = |k: usize| -> Vec<String> {
        groups[k].findings.iter().map(|f| finding_dedup_key(f)).collect()
    };
    assert_eq!(sids(0), ["OS|2", "OS|4"]);
    assert_eq!(sids(1), ["OS|5"]);
    assert_eq!(sids(2), ["OS|1", "OS|3"]);
}

#[test]
fn folders_are_ranked_by_score_and_then_by_path() {
    let findings = vec![
        RiskFinding::inheritance_break("z".to_string(), true),
        RiskFinding::null_dacl("m".to_string()),
        RiskFinding::null_dacl("b".to_string()),
        RiskFinding::inheritance_break("z".to_string(), true),
        RiskFinding::inheritance_break("c".to_string(), true),
        RiskFinding::inheritance_break("d".to_string(), true),
        RiskFinding::inheritance_break("e".to_string(), true),
    ];
    let refs = refs_of(&findings);
    let folders = rank_folders(&refs);
    let shown: Vec<(&str, u128, usize)> =
        folders.iter().map(|f| (f.path, f.score, f.count)).collect();
    assert_eq!(
        shown,
        [("b", 10, 1), ("m", 10, 1), ("z", 4, 2), ("c", 2, 1), ("d", 2, 1), ("e", 2, 1)]
    );
    let mut script = String::new();
    emit_top5_riskiest_folders(&mut script, &findings);
    assert!(script.contains("│  #5 ["));
    assert!(!script.contains("│  #6 ["));
    assert!(!script.contains("│     e\""));
}

// ── Lines ───────────────────────────────────────────────────────────────────

#[test]
fn lines_end_with_a_break() {
    let mut lines = Lines::new();
    lines.line("a");
    lines.own("b".to_string());
    lines.all(&["c", ""]);
    let mut text = ">".to_string();
    lines.write_to(&mut text);
    assert_eq!(text, ">a\nb\nc\n\n");
}

// ── Laws on given values ────────────────────────────────────────────────────

#[test]
fn quoted_paths_are_read_back() {
    for path in ["", "'", "''x'", r"C:\O'Brien's\'", "plain"] {
        let text = format!("'{}' rest", escape_ps_path(path));
        let mut read = String::new();
        let mut chars = text.chars().skip(1).peekable();
        while let Some(c) = chars.next() {
            if c == '\'' {
                if chars.peek() != Some(&'\'') {
                    break;
                }
                chars.next();
            }
            read.push(c);
        }
        assert_eq!(read, path);
        assert_eq!(chars.collect::<String>(), " rest");
    }
}

#[test]
fn each_finding_has_its_place() {
    let findings = vec![
        everyone_on("p"),
        RiskFinding::null_dacl("p".to_string()),
        orphan_on("q", "S-1-5-21-9"),
        everyone_on("p"),
    ];
    let script = remediation_script_at(&findings, "root", TIME);
    assert_eq!(script.matches("# PATH BLOCK #").count(), 2);
    assert_eq!(script.matches("MANUAL TRIAGE REQUIRED").count(), 1);
    assert_eq!(script.matches("Would REMOVE explicit Allow ACE for 'Everyone'").count(), 1);
    assert_eq!(script.matches("Would REMOVE orphaned SID: S-1-5-21-9").count(), 1);
    assert!(script.contains("# INFO (Finding #2) —"));
}

#[test]
fn a_line_break_in_a_path_is_kept() {
    let script = remediation_script_at(&[everyone_on("a\nSet-Acl b")], "root", TIME);
    assert!(script.contains("# Path: a\nSet-Acl b\n"));
}

#[test]
fn lists_are_touched_in_the_live_branch() {
    let findings = vec![
        everyone_on("p"),
        RiskFinding::inheritance_break("p".to_string(), true),
        orphan_on("p", "S-1-5-21-9"),
    ];
    let mut block = String::new();
    emit_aggregated_path_block(&mut block, 1, "p", &refs_of(&findings));
    let lines: Vec<&str> = block.lines().collect();
    let from = lines.iter().position(|l| *l == "    if ($LiveMode) {").unwrap();
    let to = lines.iter().position(|l| *l == "    } else {").unwrap();
    let mut touched: usize = 0;
    for (k, line) in lines.iter().enumerate() {
        let code = code_of(line);
        if code.starts_with("$acl") || code.starts_with("Set-Acl") {
            assert!(from < k && k < to);
            touched += 1;
        }
    }
    assert_eq!(touched, 5);
}
