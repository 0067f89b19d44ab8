use folsec_auditor::remediation::remediation_script_at;
use folsec_auditor::reporter::{html_report, ReportValues};

const EMPTY_SCRIPT: [&str; 127] = [
    "# ══════════════════════════════════════════════════════════════════════════════",
    "# FolSec NTFS/ACL Risk Auditor — DRY-RUN Remediation Script",
    "# ══════════════════════════════════════════════════════════════════════════════",
    "#",
    "#  ██████╗ ██████╗ ██╗   ██╗      ██████╗ ██╗   ██╗███╗   ██╗",
    "#  ██╔══██╗██╔══██╗╚██╗ ██╔╝      ██╔══██╗██║   ██║████╗  ██║",
    "#  ██║  ██║██████╔╝ ╚████╔╝ █████╗██████╔╝██║   ██║██╔██╗ ██║",
    "#  ██║  ██║██╔══██╗  ╚██╔╝  ╚════╝██╔══██╗██║   ██║██║╚██╗██║",
    "#  ██████╔╝██║  ██║   ██║          ██║  ██║╚██████╔╝██║ ╚████║",
    "#  ╚═════╝ ╚═╝  ╚═╝   ╚═╝          ╚═╝  ╚═╝ ╚═════╝ ╚═╝  ╚═══╝",
    "#",
    "#  ⚠  THIS SCRIPT MAKES NO CHANGES BY DEFAULT.",
    "#     It uses Write-Host to print what WOULD be done.",
    "#     To convert to live mode, follow the instructions in each block.",
    "#",
    "#  Scan root:        \\\\server\\HR",
    "#  Total findings:   0",
    "#  Actionable fixes: 0",
    "#  Generated:        2024-05-06 07:08:09 +0200",
    "#  Generator:        FolSec Auditor v1.2.0",
    "#",
    "#  CHANGE MANAGEMENT: This script should be reviewed in your",
    "#  organization's change control process before ANY modifications",
    "#  are made live. File server ACL changes can cause immediate",
    "#  access disruptions across the enterprise.",
    "#",
    "# ══════════════════════════════════════════════════════════════════════════════",
    "",
    "#Requires -RunAsAdministrator",
    "",
    "# ──────────────────────────────────────────────────────────────────────────────",
    "# SAFETY CONFIGURATION",
    "# ──────────────────────────────────────────────────────────────────────────────",
    "",
    "# Halt on ANY error. In an enterprise environment, partial ACL changes",
    "# are worse than no changes at all — they create inconsistent state.",
    "$ErrorActionPreference = 'Stop'",
    "",
    "# Catch common scripting mistakes (undefined variables, etc.)",
    "Set-StrictMode -Version Latest",
    "",
    "# Audit trail: log all console output to a timestamped transcript file.",
    "# This is required by most enterprise change management frameworks.",
    "$TranscriptPath = Join-Path $PSScriptRoot (\"FolSec_Remediation_$(Get-Date -Format 'yyyyMMdd_HHmmss').log\")",
    "Start-Transcript -Path $TranscriptPath -Append | Out-Null",
    "",
    "# ── Execution Mode ─────────────────────────────────────────────────────────",
    "# By default, $LiveMode is $false. The script ONLY prints what it would do.",
    "# To enable LIVE remediation:",
    "#   1. Get change approval from your AD team lead.",
    "#   2. Set $LiveMode = $true below.",
    "#   3. The script will prompt for confirmation before proceeding.",
    "$LiveMode = $false",
    "",
    "if ($LiveMode) {",
    "    Write-Host \"\" ",
    "    Write-Host \"╔══════════════════════════════════════════════════════════════╗\" -ForegroundColor Red",
    "    Write-Host \"║  ⚠  LIVE MODE ENABLED — ACL CHANGES WILL BE APPLIED!       ║\" -ForegroundColor Red",
    "    Write-Host \"║  This action is IRREVERSIBLE without a backup.              ║\" -ForegroundColor Red",
    "    Write-Host \"║  Ensure you have a full ACL backup (icacls /save).          ║\" -ForegroundColor Red",
    "    Write-Host \"╚══════════════════════════════════════════════════════════════╝\" -ForegroundColor Red",
    "    Write-Host \"\" ",
    "    $confirm = Read-Host \"Type 'APPLY CHANGES' to proceed, or press Enter to abort\"",
    "    if ($confirm -ne 'APPLY CHANGES') {",
    "        Write-Host \"Aborted. No changes were made.\" -ForegroundColor Green",
    "        Stop-Transcript | Out-Null",
    "        exit 0",
    "    }",
    "    Write-Host \"Proceeding with LIVE remediation...\" -ForegroundColor Red",
    "    Write-Host \"\" ",
    "}",
    "",
    "# ──────────────────────────────────────────────────────────────────────────────",
    "# RUNTIME BANNER",
    "# ──────────────────────────────────────────────────────────────────────────────",
    "",
    "Write-Host \"\" ",
    "Write-Host \"━━━━━━━━━━━━━━━━━━━━━━━━━━━━━━━━━━━━━━━━━━━━━━━━━━━━━━━━━━━━\" -ForegroundColor Cyan",
    "Write-Host \"  FolSec NTFS Auditor — Remediation Script\" -ForegroundColor Cyan",
    "Write-Host \"━━━━━━━━━━━━━━━━━━━━━━━━━━━━━━━━━━━━━━━━━━━━━━━━━━━━━━━━━━━━\" -ForegroundColor Cyan",
    "Write-Host \"  Scan Root:        \\\\server\\HR\" -ForegroundColor Gray",
    "Write-Host \"  Total Findings:   0\" -ForegroundColor Gray",
    "Write-Host \"  Actionable Fixes: 0\" -ForegroundColor Gray",
    "Write-Host \"  Mode:             $(if ($LiveMode) { 'LIVE' } else { 'DRY-RUN' })\" -ForegroundColor $(if ($LiveMode) { 'Red' } else { 'Green' })",
    "Write-Host \"━━━━━━━━━━━━━━━━━━━━━━━━━━━━━━━━━━━━━━━━━━━━━━━━━━━━━━━━━━━━\" -ForegroundColor Cyan",
    "Write-Host \"\" ",
    "",
    "# ── Tracking counters ──────────────────────────────────────────────────────",
    "$ActionCount     = 0   # Number of remediation actions processed",
    "$SuccessCount    = 0   # Successful actions (live mode only)",
    "$ErrorCount      = 0   # Failed actions (live mode only)",
    "$SkippedCount    = 0   # Skipped (path not found, etc.)",
    "",
    "# ══════════════════════════════════════════════════════════════════════════════",
    "# EXECUTION SUMMARY",
    "# ══════════════════════════════════════════════════════════════════════════════",
    "",
    "Write-Host \"\" ",
    "Write-Host \"━━━━━━━━━━━━━━━━━━━━━━━━━━━━━━━━━━━━━━━━━━━━━━━━━━━━━━━━━━━━\" -ForegroundColor Cyan",
    "Write-Host \"  Execution Summary\" -ForegroundColor Cyan",
    "Write-Host \"━━━━━━━━━━━━━━━━━━━━━━━━━━━━━━━━━━━━━━━━━━━━━━━━━━━━━━━━━━━━\" -ForegroundColor Cyan",
    "Write-Host \"  Total actions:    0 (actionable findings)\" -ForegroundColor Gray",
    "Write-Host \"  Processed:        $ActionCount\" -ForegroundColor Gray",
    "Write-Host \"  Skipped:          $SkippedCount\" -ForegroundColor DarkGray",
    "",
    "if ($LiveMode) {",
    "    Write-Host \"  Succeeded:        $SuccessCount\" -ForegroundColor Green",
    "    Write-Host \"  Failed:           $ErrorCount\" -ForegroundColor $(if ($ErrorCount -gt 0) { 'Red' } else { 'Green' })",
    "} else {",
    "    Write-Host \"  Mode:             DRY-RUN (no changes were made)\" -ForegroundColor Green",
    "}",
    "",
    "Write-Host \"━━━━━━━━━━━━━━━━━━━━━━━━━━━━━━━━━━━━━━━━━━━━━━━━━━━━━━━━━━━━\" -ForegroundColor Cyan",
    "Write-Host \"\" ",
    "",
    "Write-Host \"Next steps:\" -ForegroundColor White",
    "Write-Host \"  1. Review each action above with your AD team lead.\" -ForegroundColor Gray",
    "Write-Host \"  2. Submit this output through your change management process.\" -ForegroundColor Gray",
    "Write-Host \"  3. Back up current ACLs:  icacls '<root>' /save acl_backup.txt /T\" -ForegroundColor Gray",
    "Write-Host \"  4. Set `$LiveMode = `$true and re-run to apply (with -WhatIf safety).\" -ForegroundColor Gray",
    "Write-Host \"  5. Remove -WhatIf from Set-Acl calls only after final approval.\" -ForegroundColor Gray",
    "Write-Host \"\" ",
    "Write-Host \"Transcript saved to: $TranscriptPath\" -ForegroundColor DarkGray",
    "Write-Host \"Report & docs: https://folsec.com/remediation\" -ForegroundColor DarkGray",
    "Write-Host \"\" ",
    "",
    "Stop-Transcript | Out-Null",
];

#[test]
fn script_without_findings_is_exact() {
    let script = remediation_script_at(&[], r"\\server\HR", "2024-05-06 07:08:09 +0200");
    let text = script.strip_prefix('\u{FEFF}').unwrap();
    let lines: Vec<&str> = text.lines().collect();
    assert_eq!(lines.len(), EMPTY_SCRIPT.len());
    for (line, expected) in lines.iter().zip(EMPTY_SCRIPT.iter()) {
        assert_eq!(line, expected);
    }
    assert_eq!(text.matches('\n').count(), EMPTY_SCRIPT.len());
}

#[test]
fn page_wording_is_exact() {
    let html = html_report(&ReportValues {
        scan_root: "R",
        scan_time: "T",
        findings_json: "F",
        summary_json: "S",
        errors_json: "E",
    });
    assert_eq!(html.len(), 28243);
    // FNV-1a over the whole page.
    let mut hash: u64 = 0xcbf2_9ce4_8422_2325;
    for byte in html.bytes() {
        hash ^= u64::from(byte);
        hash = hash.wrapping_mul(0x0100_0000_01b3);
    }
    assert_eq!(hash, 0x26322e896398ff8e);
}
