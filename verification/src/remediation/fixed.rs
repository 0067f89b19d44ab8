//! The fixed wording of the remediation script.
//!
//! A line without fields is a text. A line with fields is the list of the texts
//! between which the fields stand.

use vstd::prelude::*;

verus! {

/// The byte order mark, by which Windows PowerShell tells UTF-8.
pub const UTF8_BOM: &'static str = "\u{FEFF}";

/// The rule between blocks.
pub const PS_RULE: &'static str =
    "# ══════════════════════════════════════════════════════════════════════════════";

/// The rule between sections.
pub const PS_DIVIDER: &'static str =
    "# ──────────────────────────────────────────────────────────────────────────────";

/// The line that turns live mode off.
pub const LIVE_OFF: &'static str = "$LiveMode = $false";

/// The line behind which live mode is left again unless it is confirmed.
pub const GATE: &'static str = "    if ($confirm -ne 'APPLY CHANGES') {";

/// The line behind which a block acts in live mode.
pub const LIVE_BRANCH: &'static str = "    if ($LiveMode) {";

/// The line behind which a block says what it would do.
pub const DRY_BRANCH: &'static str = "    } else {";

/// The line that writes an access control list back, and changes nothing.
pub const WHAT_IF: &'static str =
    "                Set-Acl -LiteralPath $targetPath -AclObject $acl -WhatIf";

// ---------------------------------------------------------------------------
// Header
// ---------------------------------------------------------------------------

/// The top of the header.
pub const HEADER_TOP: [&'static str; 15] = [
    PS_RULE,
    "# FolSec NTFS/ACL Risk Auditor — DRY-RUN Remediation Script",
    PS_RULE,
    "#",
    "#  ██████╗ ██████╗ ██╗   ██╗      ██████╗ ██╗   ██╗███╗   ██╗",
    "#  ██╔══██╗██╔══██╗╚██╗ ██╔╝      ██╔══██╗██║   ██║████╗  ██║",
    "#  ██║  ██║██████╔╝ ╚████╔╝ █████╗██████╔╝██║   ██║██╔██╗ ██║",
    "#  ██║  ██║██╔══██╗  ╚██╔╝  ╚════╝██╔══██╗██║   ██║██║╚██╗██║",
    "#  ██████╔╝██║  ██║   ██║          ██║  ██║╚██████╔╝██║ ╚████║",
    "#  ╚═════╝ ╚═╝  ╚═╝   ╚═╝          ╚═╝  ╚═╝ ╚═════╝ ╚═╝  ╚═══╝",
    "#",
    "#  ⚠  THIS SCRIPT MAKES NO CHANGES BY DEFAULT.",
    "#     It uses Write-Host to print what WOULD be done.",
    "#     To convert to live mode, follow the instructions in each block.",
    "#",
];

/// The root of the scan.
pub const HEADER_ROOT: [&'static str; 2] = ["#  Scan root:        ", ""];

/// The number of findings.
pub const HEADER_TOTAL: [&'static str; 2] = ["#  Total findings:   ", ""];

/// The number of findings that can be fixed.
pub const HEADER_ACTIONABLE: [&'static str; 2] = ["#  Actionable fixes: ", ""];

/// The time.
pub const HEADER_TIME: [&'static str; 2] = ["#  Generated:        ", ""];

/// The version of the auditor.
pub const HEADER_VERSION: [&'static str; 2] = ["#  Generator:        FolSec Auditor v", ""];

/// The bottom of the header.
pub const HEADER_BOTTOM: [&'static str; 8] = [
    "#",
    "#  CHANGE MANAGEMENT: This script should be reviewed in your",
    "#  organization's change control process before ANY modifications",
    "#  are made live. File server ACL changes can cause immediate",
    "#  access disruptions across the enterprise.",
    "#",
    PS_RULE,
    "",
];

// ---------------------------------------------------------------------------
// Safety
// ---------------------------------------------------------------------------

/// What keeps the script from changing anything unless it is told to twice.
pub const SAFETY: [&'static str; 44] = [
    "#Requires -RunAsAdministrator",
    "",
    PS_DIVIDER,
    "# SAFETY CONFIGURATION",
    PS_DIVIDER,
    "",
    "# Halt on ANY error. In an enterprise environment, partial ACL changes",
    "# are worse than no changes at all — they create inconsistent state.",
    "$ErrorActionPreference = 'Stop'",
    "",
    "# Catch common scripting mistakes (undefined variables, etc.)",
    "Set-StrictMode -Version Latest",
    "",
    "# Audit trail: log all console output to a timestamped transcript file.",
    "# This is required by most enterprise change management frameworks.",
    "$TranscriptPath = Join-Path $PSScriptRoot (\"FolSec_Remediation_$(Get-Date -Format 'yyyyMMdd_HHmmss').log\")",
    "Start-Transcript -Path $TranscriptPath -Append | Out-Null",
    "",
    "# ── Execution Mode ─────────────────────────────────────────────────────────",
    "# By default, $LiveMode is $false. The script ONLY prints what it would do.",
    "# To enable LIVE remediation:",
    "#   1. Get change approval from your AD team lead.",
    "#   2. Set $LiveMode = $true below.",
    "#   3. The script will prompt for confirmation before proceeding.",
    LIVE_OFF,
    "",
    "if ($LiveMode) {",
    "    Write-Host \"\" ",
    "    Write-Host \"╔══════════════════════════════════════════════════════════════╗\" -ForegroundColor Red",
    "    Write-Host \"║  ⚠  LIVE MODE ENABLED — ACL CHANGES WILL BE APPLIED!       ║\" -ForegroundColor Red",
    "    Write-Host \"║  This action is IRREVERSIBLE without a backup.              ║\" -ForegroundColor Red",
    "    Write-Host \"║  Ensure you have a full ACL backup (icacls /save).          ║\" -ForegroundColor Red",
    "    Write-Host \"╚══════════════════════════════════════════════════════════════╝\" -ForegroundColor Red",
    "    Write-Host \"\" ",
    "    $confirm = Read-Host \"Type 'APPLY CHANGES' to proceed, or press Enter to abort\"",
    GATE,
    "        Write-Host \"Aborted. No changes were made.\" -ForegroundColor Green",
    "        Stop-Transcript | Out-Null",
    "        exit 0",
    "    }",
    "    Write-Host \"Proceeding with LIVE remediation...\" -ForegroundColor Red",
    "    Write-Host \"\" ",
    "}",
    "",
];

// ---------------------------------------------------------------------------
// Banner
// ---------------------------------------------------------------------------

/// The top of the banner.
pub const BANNER_TOP: [&'static str; 8] = [
    PS_DIVIDER,
    "# RUNTIME BANNER",
    PS_DIVIDER,
    "",
    "Write-Host \"\" ",
    "Write-Host \"━━━━━━━━━━━━━━━━━━━━━━━━━━━━━━━━━━━━━━━━━━━━━━━━━━━━━━━━━━━━\" -ForegroundColor Cyan",
    "Write-Host \"  FolSec NTFS Auditor — Remediation Script\" -ForegroundColor Cyan",
    "Write-Host \"━━━━━━━━━━━━━━━━━━━━━━━━━━━━━━━━━━━━━━━━━━━━━━━━━━━━━━━━━━━━\" -ForegroundColor Cyan",
];

/// The root of the scan.
pub const BANNER_ROOT: [&'static str; 2] = [
    "Write-Host \"  Scan Root:        ",
    "\" -ForegroundColor Gray",
];

/// The number of findings.
pub const BANNER_TOTAL: [&'static str; 2] = [
    "Write-Host \"  Total Findings:   ",
    "\" -ForegroundColor Gray",
];

/// The number of findings that can be fixed.
pub const BANNER_ACTIONABLE: [&'static str; 2] = [
    "Write-Host \"  Actionable Fixes: ",
    "\" -ForegroundColor Gray",
];

/// The bottom of the banner, and the counters.
pub const BANNER_BOTTOM: [&'static str; 10] = [
    "Write-Host \"  Mode:             $(if ($LiveMode) { 'LIVE' } else { 'DRY-RUN' })\" -ForegroundColor $(if ($LiveMode) { 'Red' } else { 'Green' })",
    "Write-Host \"━━━━━━━━━━━━━━━━━━━━━━━━━━━━━━━━━━━━━━━━━━━━━━━━━━━━━━━━━━━━\" -ForegroundColor Cyan",
    "Write-Host \"\" ",
    "",
    "# ── Tracking counters ──────────────────────────────────────────────────────",
    "$ActionCount     = 0   # Number of remediation actions processed",
    "$SuccessCount    = 0   # Successful actions (live mode only)",
    "$ErrorCount      = 0   # Failed actions (live mode only)",
    "$SkippedCount    = 0   # Skipped (path not found, etc.)",
    "",
];

// ---------------------------------------------------------------------------
// Riskiest folders
// ---------------------------------------------------------------------------

/// The top of the list of the riskiest folders.
pub const FOLDERS_TOP: [&'static str; 8] = [
    PS_DIVIDER,
    "# TOP 5 RISKIEST FOLDERS",
    PS_DIVIDER,
    "",
    "Write-Host \"\" ",
    "Write-Host \"┌──────────────────────────────────────────────────────────────┐\" -ForegroundColor Red",
    "Write-Host \"│  🔥 TOP 5 RISKIEST FOLDERS                                  │\" -ForegroundColor Red",
    "Write-Host \"├──────────────────────────────────────────────────────────────┤\" -ForegroundColor Red",
];

/// The rank of a folder, its score and the number of its findings.
pub const FOLDER_RANK: [&'static str; 4] = [
    "Write-Host \"│  #",
    " [Score: ",
    "] (",
    " finding(s))\" -ForegroundColor White",
];

/// The bar of a folder and its color.
pub const FOLDER_BAR: [&'static str; 3] = ["Write-Host \"│     ", "\" -ForegroundColor ", ""];

/// The path of a folder.
pub const FOLDER_PATH: [&'static str; 2] = ["Write-Host \"│     ", "\" -ForegroundColor Gray"];

/// The line between folders.
pub const FOLDER_GAP: &'static str = "Write-Host \"│\" -ForegroundColor Red";

/// The bottom of the list of the riskiest folders.
pub const FOLDERS_BOTTOM: [&'static str; 3] = [
    "Write-Host \"└──────────────────────────────────────────────────────────────┘\" -ForegroundColor Red",
    "Write-Host \"\" ",
    "",
];

// ---------------------------------------------------------------------------
// Blocks
// ---------------------------------------------------------------------------

/// The number of a block and of its findings.
pub const BLOCK_TITLE: [&'static str; 3] = ["# PATH BLOCK #", " — ", " finding(s) on this path"];

/// The path of a block.
pub const BLOCK_PATH: [&'static str; 2] = ["# Path: ", ""];

/// A broad grant: its number, severity, trustee, rights and mask.
pub const GRANT_NOTE: [&'static str; 6] = [
    "#   ",
    ". [",
    "] OVER-PERMISSIVE ACE: '",
    "' with ",
    " (0x",
    ")",
];

/// An inheritance break: its number, severity and whether entries were copied.
pub const BREAK_NOTE: [&'static str; 4] = [
    "#   ",
    ". [",
    "] INHERITANCE BREAK (had_protected_copy=",
    ")",
];

/// An orphaned SID: its number, severity and the SID.
pub const ORPHAN_NOTE: [&'static str; 4] = ["#   ", ". [", "] ORPHANED SID: ", ""];

/// The end of the notes of a block.
pub const NOTES_BOTTOM: [&'static str; 4] = [
    "#",
    "# Recommendation: Review all sub-actions below before enabling live mode.",
    PS_RULE,
    "",
];

/// The number of actions of a block.
pub const ACTION_COUNT: [&'static str; 2] = ["$ActionCount += ", ""];

/// The path that a block acts on.
pub const TARGET_PATH: [&'static str; 2] = ["$targetPath = '", "'"];

/// The start of what a block does.
pub const ACTIONS_TOP: [&'static str; 8] = [
    "",
    "if (Test-Path -LiteralPath $targetPath) {",
    LIVE_BRANCH,
    "        # ── LIVE: Apply all remediation actions for this path ──",
    "        try {",
    "            $acl = Get-Acl -LiteralPath $targetPath",
    "            $modified = $false",
    "",
];

/// Removing a broad grant: its number, trustee, rights and mask.
pub const GRANT_ACTION: [&'static str; 5] = [
    "            # Sub-action ",
    ": Remove over-permissive ACE for '",
    "' (",
    ", 0x",
    ")",
];

/// Finding the entries of a broad grant.
pub const GRANT_RULES: &'static str = "            $rulesToRemove = $acl.Access | Where-Object {";

/// The trustee of a broad grant.
pub const GRANT_MATCH: [&'static str; 2] = [
    "                $_.IdentityReference.Value -eq '",
    "' -and $_.AccessControlType -eq 'Allow'",
];

/// Removing the entries of a broad grant.
pub const GRANT_REMOVAL: [&'static str; 5] = [
    "            }",
    "            foreach ($rule in $rulesToRemove) {",
    "                $acl.RemoveAccessRule($rule) | Out-Null",
    "                $modified = $true",
    "            }",
];

/// A broad grant is gone: its number, trustee and rights.
pub const GRANT_DONE: [&'static str; 4] = [
    "            Write-Host \"    [SUB-ACTION ",
    "] Removed ACE for '",
    "' (",
    ")\" -ForegroundColor Green",
];

/// Turning inheritance back on: its number.
pub const BREAK_ACTION: [&'static str; 2] = [
    "            # Sub-action ",
    ": Re-enable inheritance",
];

/// Turning inheritance back on.
pub const BREAK_REPAIR: [&'static str; 5] = [
    "            # SetAccessRuleProtection($isProtected, $preserveInheritance)",
    "            #   $false = not protected = inheritance flows through",
    "            #   $false = do not preserve existing explicit ACEs",
    "            $acl.SetAccessRuleProtection($false, $false)",
    "            $modified = $true",
];

/// Inheritance is back: its number.
pub const BREAK_DONE: [&'static str; 2] = [
    "            Write-Host \"    [SUB-ACTION ",
    "] Re-enabled inheritance\" -ForegroundColor Green",
];

/// Removing an orphaned SID: its number and the SID.
pub const ORPHAN_ACTION: [&'static str; 3] = [
    "            # Sub-action ",
    ": Remove orphaned SID '",
    "'",
];

/// The orphaned SID: its number and the SID.
pub const ORPHAN_SID: [&'static str; 3] = [
    "            $orphanSid",
    " = New-Object System.Security.Principal.SecurityIdentifier('",
    "')",
];

/// Finding the entries of an orphaned SID.
pub const ORPHAN_RULES: &'static str = "            $orphanRules = $acl.Access | Where-Object {";

/// The orphaned SID of an entry: its number.
pub const ORPHAN_MATCH: [&'static str; 2] = [
    "                $_.IdentityReference.Value -eq $orphanSid",
    ".Value",
];

/// Removing the entries of an orphaned SID.
pub const ORPHAN_REMOVAL: [&'static str; 5] = [
    "            }",
    "            foreach ($rule in $orphanRules) {",
    "                $acl.RemoveAccessRule($rule) | Out-Null",
    "                $modified = $true",
    "            }",
];

/// An orphaned SID is gone: its number and the SID.
pub const ORPHAN_DONE: [&'static str; 3] = [
    "            Write-Host \"    [SUB-ACTION ",
    "] Removed orphaned SID '",
    "'\" -ForegroundColor Green",
];

/// Writing the list back.
pub const COMMIT_TOP: [&'static str; 6] = [
    "",
    "            if ($modified) {",
    WHAT_IF,
    "                # NOTE: Remove '-WhatIf' above ONLY after thorough review.",
    "                # Set-Acl -LiteralPath $targetPath -AclObject $acl",
    "                $SuccessCount++",
];

/// The number of actions that were applied.
pub const COMMIT_DONE: [&'static str; 2] = [
    "                Write-Host \"  [APPLIED] All ",
    " sub-actions applied on: $targetPath\" -ForegroundColor Green",
];

/// The end of the live actions, and the start of the dry run.
pub const COMMIT_BOTTOM: [&'static str; 7] = [
    "            }",
    "        } catch {",
    "            $ErrorCount++",
    "            Write-Host \"  [ERROR] Failed to modify ACL on: $targetPath — $_\" -ForegroundColor Red",
    "        }",
    DRY_BRANCH,
    "        # ── DRY-RUN: Describe what would happen ──",
];

/// A dry run: the number of the block and of its actions.
pub const DRY_TITLE: [&'static str; 3] = [
    "        Write-Host \"[DRY-RUN BLOCK #",
    "] Path: $targetPath (",
    " action(s))\" -ForegroundColor Cyan",
];

/// What would become of a broad grant: its number, trustee, rights and mask.
pub const GRANT_DRY: [&'static str; 5] = [
    "        Write-Host \"  {\"",
    "\"}.  Would REMOVE explicit Allow ACE for '",
    "' — ",
    " (0x",
    ")\" -ForegroundColor Yellow",
];

/// What would become of an inheritance break: its number and whether entries were copied.
pub const BREAK_DRY: [&'static str; 3] = [
    "        Write-Host \"  {\"",
    "\"}.  Would RE-ENABLE INHERITANCE (had_protected_copy=",
    ")\" -ForegroundColor Magenta",
];

/// What would become of an orphaned SID: its number and the SID.
pub const ORPHAN_DRY: [&'static str; 3] = [
    "        Write-Host \"  {\"",
    "\"}.  Would REMOVE orphaned SID: ",
    "\" -ForegroundColor DarkYellow",
];

/// The end of the dry run.
pub const DRY_BOTTOM: [&'static str; 3] = ["    }", "} else {", "    $SkippedCount++"];

/// A block whose path is gone: its number.
pub const SKIPPED: [&'static str; 2] = [
    "    Write-Host \"  [SKIPPED BLOCK #",
    "] Path not found: $targetPath\" -ForegroundColor DarkGray",
];

/// The end of a block.
pub const BLOCK_BOTTOM: [&'static str; 2] = ["}", ""];

// ---------------------------------------------------------------------------
// Manual triage
// ---------------------------------------------------------------------------

/// The number of a finding and its severity.
pub const TRIAGE_TITLE: [&'static str; 3] = [
    "# INFO (Finding #",
    ") — MANUAL TRIAGE REQUIRED [",
    "]",
];

/// The path of a finding.
pub const TRIAGE_PATH: [&'static str; 2] = ["# Path:     ", ""];

/// The description of a finding.
pub const TRIAGE_RISK: [&'static str; 2] = ["# Risk:     ", ""];

/// What to do about a finding.
pub const TRIAGE_GUIDANCE: [&'static str; 2] = ["# Guidance: ", ""];

/// The end of a comment.
pub const TRIAGE_BOTTOM: [&'static str; 5] = [
    "#",
    "# No automated fix is generated for this finding type.",
    "# Please review the HTML report for full details and remediate manually.",
    PS_DIVIDER,
    "",
];

/// What to do about a missing DACL.
pub const NULL_DACL_GUIDANCE: &'static str =
    "NULL DACL requires manual triage — apply a restrictive explicit DACL.";

/// What to do about cycling that nobody noticed: the milliseconds.
pub const ANOMALY_GUIDANCE: [&'static str; 2] = [
    "SIEM visibility gap detected (",
    "ms cycling). Configure audit policies to detect rapid ACL changes.",
];

// ---------------------------------------------------------------------------
// Footer
// ---------------------------------------------------------------------------

/// The top of the footer.
pub const FOOTER_TOP: [&'static str; 8] = [
    PS_RULE,
    "# EXECUTION SUMMARY",
    PS_RULE,
    "",
    "Write-Host \"\" ",
    "Write-Host \"━━━━━━━━━━━━━━━━━━━━━━━━━━━━━━━━━━━━━━━━━━━━━━━━━━━━━━━━━━━━\" -ForegroundColor Cyan",
    "Write-Host \"  Execution Summary\" -ForegroundColor Cyan",
    "Write-Host \"━━━━━━━━━━━━━━━━━━━━━━━━━━━━━━━━━━━━━━━━━━━━━━━━━━━━━━━━━━━━\" -ForegroundColor Cyan",
];

/// The number of actions.
pub const FOOTER_TOTAL: [&'static str; 2] = [
    "Write-Host \"  Total actions:    ",
    " (actionable findings)\" -ForegroundColor Gray",
];

/// The bottom of the footer.
pub const FOOTER_BOTTOM: [&'static str; 25] = [
    "Write-Host \"  Processed:        $ActionCount\" -ForegroundColor Gray",
    "Write-Host \"  Skipped:          $SkippedCount\" -ForegroundColor DarkGray",
    "",
    "if ($LiveMode) {",
    "    Write-Host \"  Succeeded:        $SuccessCount\" -ForegroundColor Green",
    "    Write-Host \"  Failed:           $ErrorCount\" -ForegroundColor $(if ($ErrorCount -gt 0) { 'Red' } else { 'Green' })",
    "} else {",
    "    Write-Host \"  Mode:             DRY-RUN (no changes were made)\" -ForegroundColor Green",
    "}",
    "",
    "Write-Host \"━━━━━━━━━━━━━━━━━━━━━━━━━━━━━━━━━━━━━━━━━━━━━━━━━━━━━━━━━━━━\" -ForegroundColor Cyan",
    "Write-Host \"\" ",
    "",
    "Write-Host \"Next steps:\" -ForegroundColor White",
    "Write-Host \"  1. Review each action above with your AD team lead.\" -ForegroundColor Gray",
    "Write-Host \"  2. Submit this output through your change management process.\" -ForegroundColor Gray",
    "Write-Host \"  3. Back up current ACLs:  icacls '<root>' /save acl_backup.txt /T\" -ForegroundColor Gray",
    "Write-Host \"  4. Set `$LiveMode = `$true and re-run to apply (with -WhatIf safety).\" -ForegroundColor Gray",
    "Write-Host \"  5. Remove -WhatIf from Set-Acl calls only after final approval.\" -ForegroundColor Gray",
    "Write-Host \"\" ",
    "Write-Host \"Transcript saved to: $TranscriptPath\" -ForegroundColor DarkGray",
    "Write-Host \"Report & docs: https://folsec.com/remediation\" -ForegroundColor DarkGray",
    "Write-Host \"\" ",
    "",
    "Stop-Transcript | Out-Null",
];

} // verus!
