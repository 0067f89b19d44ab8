//! What the lines of the script start with, read off the fixed wording.

use super::fixed::{
    ACTIONS_TOP, ACTION_COUNT, ANOMALY_GUIDANCE, BANNER_ACTIONABLE, BANNER_BOTTOM, BANNER_ROOT,
    BANNER_TOP, BANNER_TOTAL, BLOCK_BOTTOM, BLOCK_PATH, BLOCK_TITLE, BREAK_ACTION, BREAK_DONE,
    BREAK_DRY, BREAK_NOTE, BREAK_REPAIR, COMMIT_BOTTOM, COMMIT_DONE, COMMIT_TOP, DRY_BOTTOM,
    DRY_TITLE, FOLDERS_BOTTOM, FOLDERS_TOP, FOLDER_BAR, FOLDER_GAP, FOLDER_PATH, FOLDER_RANK,
    FOOTER_BOTTOM, FOOTER_TOP, FOOTER_TOTAL, GRANT_ACTION, GRANT_DONE, GRANT_DRY, GRANT_MATCH,
    GRANT_NOTE, GRANT_REMOVAL, GRANT_RULES, HEADER_ACTIONABLE, HEADER_BOTTOM, HEADER_ROOT,
    HEADER_TIME, HEADER_TOP, HEADER_TOTAL, HEADER_VERSION, LIVE_OFF, NOTES_BOTTOM,
    NULL_DACL_GUIDANCE, ORPHAN_ACTION, ORPHAN_DONE, ORPHAN_DRY, ORPHAN_MATCH, ORPHAN_NOTE,
    ORPHAN_REMOVAL, ORPHAN_RULES, ORPHAN_SID, PS_DIVIDER, PS_RULE, SAFETY, SKIPPED, TARGET_PATH,
    TRIAGE_BOTTOM, TRIAGE_GUIDANCE, TRIAGE_PATH, TRIAGE_RISK, TRIAGE_TITLE, WHAT_IF,
};
use crate::lines::{filled1, filled2, filled3, filled4, filled5, is_one_line, texts};
use crate::text::starts_with;
use vstd::prelude::*;

verus! {

// ---------------------------------------------------------------------------
// What a line runs
// ---------------------------------------------------------------------------

/// A line behind its indentation.
pub open spec fn code_of(line: Seq<char>) -> Seq<char>
    decreases line.len(),
{
    if line.len() > 0 && line[0] == ' ' {
        code_of(line.skip(1))
    } else {
        line
    }
}

/// Whether a line starts with a command, or with a variable that it sets.
pub open spec fn runs(line: Seq<char>, command: Seq<char>) -> bool {
    starts_with(code_of(line), command)
}

/// Whether a line neither changes an access control list nor sets the mode.
pub open spec fn is_quiet(line: Seq<char>) -> bool {
    &&& !runs(line, "Set-Acl"@)
    &&& !runs(line, "icacls"@)
    &&& !runs(line, "$LiveMode"@)
}

/// Whether the code of a line starts at place `k` in a way in which nothing
/// starts that is not quiet.
pub open spec fn opens(line: Seq<char>, k: int) -> bool {
    &&& 0 <= k < line.len()
    &&& forall|i: int| 0 <= i < k ==> #[trigger] line[i] == ' '
    &&& line[k] != ' '
    &&& (line[k] == 'S' ==> k + 1 < line.len() && line[k + 1] != 'e')
    &&& (line[k] == 'i' ==> k + 1 < line.len() && line[k + 1] != 'c')
    &&& (line[k] == '$' ==> k + 1 < line.len() && line[k + 1] != 'L')
}

/// Whether every line that starts like this is quiet.
pub open spec fn starts_quietly(line: Seq<char>) -> bool {
    exists|k: int| opens(line, k)
}

/// Whether the texts of a line with fields stand on one line, which starts quietly.
pub open spec fn is_plain(p: Seq<&'static str>) -> bool {
    &&& p.len() > 0
    &&& starts_quietly(p[0]@)
    &&& forall|i: int| 0 <= i < p.len() ==> is_one_line(#[trigger] p[i]@)
}

/// Whether each of the lines is quiet and is one line.
pub open spec fn are_calm(lines: Seq<Seq<char>>) -> bool {
    forall|i: int|
        #![trigger lines[i]]
        0 <= i < lines.len() ==> is_quiet(lines[i]) && is_one_line(lines[i])
}

pub proof fn lemma_code(line: Seq<char>, k: int)
    requires
        0 <= k <= line.len(),
        forall|i: int| 0 <= i < k ==> #[trigger] line[i] == ' ',
        k < line.len() ==> line[k] != ' ',
    ensures
        code_of(line) == line.skip(k),
    decreases k,
{
    if k > 0 {
        assert forall|i: int| 0 <= i < k - 1 implies #[trigger] line.skip(1)[i] == ' ' by {
            assert(line.skip(1)[i] == line[i + 1]);
        }
        assert(line.skip(1).skip(k - 1) =~= line.skip(k));
        lemma_code(line.skip(1), k - 1);
    } else {
        assert(line.skip(0) =~= line);
    }
}

pub proof fn lemma_starts(code: Seq<char>, command: Seq<char>)
    ensures
        starts_with(code, command) ==> forall|j: int|
            0 <= j < command.len() ==> #[trigger] code[j] == command[j],
{
    if starts_with(code, command) {
        assert forall|j: int| 0 <= j < command.len() implies #[trigger] code[j] == command[j] by {
            assert(code.take(command.len() as int)[j] == code[j]);
        }
    }
}

/// A line that starts quietly is quiet, whatever follows.
pub proof fn lemma_quiet(start: Seq<char>, rest: Seq<char>)
    requires
        starts_quietly(start),
    ensures
        is_quiet(start + rest),
{
    let k = choose|k: int| opens(start, k);
    let line = start + rest;
    assert(line[k] == start[k]);
    assert forall|i: int| 0 <= i < k implies #[trigger] line[i] == ' ' by {
        assert(line[i] == start[i]);
    }
    lemma_code(line, k);
    let code = code_of(line);
    assert(code[0] == line[k]);
    if k + 1 < start.len() {
        assert(code[1] == start[k + 1]);
    }
    reveal_strlit("Set-Acl");
    reveal_strlit("icacls");
    reveal_strlit("$LiveMode");
    lemma_starts(code, "Set-Acl"@);
    lemma_starts(code, "icacls"@);
    lemma_starts(code, "$LiveMode"@);
}

proof fn lemma_opens(line: Seq<char>, k: int)
    requires
        opens(line, k),
    ensures
        is_quiet(line),
{
    lemma_quiet(line, Seq::empty());
    assert(line + Seq::<char>::empty() =~= line);
}

proof fn lemma_empty_line()
    ensures
        is_quiet(""@),
        is_one_line(""@),
{
    reveal_strlit("");
    reveal_strlit("Set-Acl");
    reveal_strlit("icacls");
    reveal_strlit("$LiveMode");
}

proof fn lemma_one_line_adds(a: Seq<char>, b: Seq<char>)
    ensures
        is_one_line(a) && is_one_line(b) ==> is_one_line(a + b),
{
    if (a + b).contains('\n') {
        let i = choose|i: int| 0 <= i < (a + b).len() && (a + b)[i] == '\n';
        if i < a.len() {
            assert(a[i] == '\n');
        } else {
            assert(b[i - a.len()] == '\n');
        }
    }
}

pub proof fn lemma_filled1(p: Seq<&'static str>, a: Seq<char>)
    requires
        p.len() == 2,
        is_plain(p),
    ensures
        is_quiet(filled1(p, a)),
        is_one_line(a) ==> is_one_line(filled1(p, a)),
{
    let rest = a + p[1]@;
    assert(filled1(p, a) =~= p[0]@ + rest);
    lemma_quiet(p[0]@, rest);
    lemma_one_line_adds(p[0]@, a);
    lemma_one_line_adds(p[0]@ + a, p[1]@);
}

pub proof fn lemma_filled2(p: Seq<&'static str>, a: Seq<char>, b: Seq<char>)
    requires
        p.len() == 3,
        is_plain(p),
    ensures
        is_quiet(filled2(p, a, b)),
        is_one_line(a) && is_one_line(b) ==> is_one_line(filled2(p, a, b)),
{
    let rest = a + p[1]@ + b + p[2]@;
    assert(filled2(p, a, b) =~= p[0]@ + rest);
    lemma_quiet(p[0]@, rest);
    lemma_one_line_adds(p[0]@, a);
    lemma_one_line_adds(p[0]@ + a, p[1]@);
    lemma_one_line_adds(p[0]@ + a + p[1]@, b);
    lemma_one_line_adds(p[0]@ + a + p[1]@ + b, p[2]@);
}

pub proof fn lemma_filled3(p: Seq<&'static str>, a: Seq<char>, b: Seq<char>, c: Seq<char>)
    requires
        p.len() == 4,
        is_plain(p),
    ensures
        is_quiet(filled3(p, a, b, c)),
        is_one_line(a) && is_one_line(b) && is_one_line(c) ==> is_one_line(filled3(p, a, b, c)),
{
    let rest = a + p[1]@ + b + p[2]@ + c + p[3]@;
    assert(filled3(p, a, b, c) =~= p[0]@ + rest);
    lemma_quiet(p[0]@, rest);
    lemma_one_line_adds(p[0]@, a);
    lemma_one_line_adds(p[0]@ + a, p[1]@);
    lemma_one_line_adds(p[0]@ + a + p[1]@, b);
    lemma_one_line_adds(p[0]@ + a + p[1]@ + b, p[2]@);
    lemma_one_line_adds(p[0]@ + a + p[1]@ + b + p[2]@, c);
    lemma_one_line_adds(p[0]@ + a + p[1]@ + b + p[2]@ + c, p[3]@);
}

pub proof fn lemma_filled4(p: Seq<&'static str>, a: Seq<char>, b: Seq<char>, c: Seq<char>, d: Seq<char>)
    requires
        p.len() == 5,
        is_plain(p),
    ensures
        is_quiet(filled4(p, a, b, c, d)),
        is_one_line(a) && is_one_line(b) && is_one_line(c) && is_one_line(d) ==> is_one_line(filled4(p, a, b, c, d)),
{
    let rest = a + p[1]@ + b + p[2]@ + c + p[3]@ + d + p[4]@;
    assert(filled4(p, a, b, c, d) =~= p[0]@ + rest);
    lemma_quiet(p[0]@, rest);
    lemma_one_line_adds(p[0]@, a);
    lemma_one_line_adds(p[0]@ + a, p[1]@);
    lemma_one_line_adds(p[0]@ + a + p[1]@, b);
    lemma_one_line_adds(p[0]@ + a + p[1]@ + b, p[2]@);
    lemma_one_line_adds(p[0]@ + a + p[1]@ + b + p[2]@, c);
    lemma_one_line_adds(p[0]@ + a + p[1]@ + b + p[2]@ + c, p[3]@);
    lemma_one_line_adds(p[0]@ + a + p[1]@ + b + p[2]@ + c + p[3]@, d);
    lemma_one_line_adds(p[0]@ + a + p[1]@ + b + p[2]@ + c + p[3]@ + d, p[4]@);
}

pub proof fn lemma_filled5(p: Seq<&'static str>, a: Seq<char>, b: Seq<char>, c: Seq<char>, d: Seq<char>, e: Seq<char>)
    requires
        p.len() == 6,
        is_plain(p),
    ensures
        is_quiet(filled5(p, a, b, c, d, e)),
        is_one_line(a) && is_one_line(b) && is_one_line(c) && is_one_line(d) && is_one_line(e) ==> is_one_line(filled5(p, a, b, c, d, e)),
{
    let rest = a + p[1]@ + b + p[2]@ + c + p[3]@ + d + p[4]@ + e + p[5]@;
    assert(filled5(p, a, b, c, d, e) =~= p[0]@ + rest);
    lemma_quiet(p[0]@, rest);
    lemma_one_line_adds(p[0]@, a);
    lemma_one_line_adds(p[0]@ + a, p[1]@);
    lemma_one_line_adds(p[0]@ + a + p[1]@, b);
    lemma_one_line_adds(p[0]@ + a + p[1]@ + b, p[2]@);
    lemma_one_line_adds(p[0]@ + a + p[1]@ + b + p[2]@, c);
    lemma_one_line_adds(p[0]@ + a + p[1]@ + b + p[2]@ + c, p[3]@);
    lemma_one_line_adds(p[0]@ + a + p[1]@ + b + p[2]@ + c + p[3]@, d);
    lemma_one_line_adds(p[0]@ + a + p[1]@ + b + p[2]@ + c + p[3]@ + d, p[4]@);
    lemma_one_line_adds(p[0]@ + a + p[1]@ + b + p[2]@ + c + p[3]@ + d + p[4]@, e);
    lemma_one_line_adds(p[0]@ + a + p[1]@ + b + p[2]@ + c + p[3]@ + d + p[4]@ + e, p[5]@);
}

// ---------------------------------------------------------------------------
// Lines without fields
// ---------------------------------------------------------------------------

proof fn lemma_header_top_from_0()
    ensures
        forall|i: int|
            #![trigger texts(HEADER_TOP@)[i]]
            0 <= i < 8 ==> is_quiet(texts(HEADER_TOP@)[i]) && is_one_line(texts(HEADER_TOP@)[i]),
{
    assert(is_quiet(HEADER_TOP@[0]@) && is_one_line(HEADER_TOP@[0]@)) by {
        reveal_strlit("# ══════════════════════════════════════════════════════════════════════════════");
        lemma_opens(HEADER_TOP@[0]@, 0);
    }
    assert(is_quiet(HEADER_TOP@[1]@) && is_one_line(HEADER_TOP@[1]@)) by {
        reveal_strlit("# FolSec NTFS/ACL Risk Auditor — DRY-RUN Remediation Script");
        lemma_opens(HEADER_TOP@[1]@, 0);
    }
    assert(is_quiet(HEADER_TOP@[2]@) && is_one_line(HEADER_TOP@[2]@)) by {
        reveal_strlit("# ══════════════════════════════════════════════════════════════════════════════");
        lemma_opens(HEADER_TOP@[2]@, 0);
    }
    assert(is_quiet(HEADER_TOP@[3]@) && is_one_line(HEADER_TOP@[3]@)) by {
        reveal_strlit("#");
        lemma_opens(HEADER_TOP@[3]@, 0);
    }
    assert(is_quiet(HEADER_TOP@[4]@) && is_one_line(HEADER_TOP@[4]@)) by {
        reveal_strlit("#  ██████╗ ██████╗ ██╗   ██╗      ██████╗ ██╗   ██╗███╗   ██╗");
        lemma_opens(HEADER_TOP@[4]@, 0);
    }
    assert(is_quiet(HEADER_TOP@[5]@) && is_one_line(HEADER_TOP@[5]@)) by {
        reveal_strlit("#  ██╔══██╗██╔══██╗╚██╗ ██╔╝      ██╔══██╗██║   ██║████╗  ██║");
        lemma_opens(HEADER_TOP@[5]@, 0);
    }
    assert(is_quiet(HEADER_TOP@[6]@) && is_one_line(HEADER_TOP@[6]@)) by {
        reveal_strlit("#  ██║  ██║██████╔╝ ╚████╔╝ █████╗██████╔╝██║   ██║██╔██╗ ██║");
        lemma_opens(HEADER_TOP@[6]@, 0);
    }
    assert(is_quiet(HEADER_TOP@[7]@) && is_one_line(HEADER_TOP@[7]@)) by {
        reveal_strlit("#  ██║  ██║██╔══██╗  ╚██╔╝  ╚════╝██╔══██╗██║   ██║██║╚██╗██║");
        lemma_opens(HEADER_TOP@[7]@, 0);
    }
}

proof fn lemma_header_top_from_8()
    ensures
        forall|i: int|
            #![trigger texts(HEADER_TOP@)[i]]
            8 <= i < 15 ==> is_quiet(texts(HEADER_TOP@)[i]) && is_one_line(texts(HEADER_TOP@)[i]),
{
    assert(is_quiet(HEADER_TOP@[8]@) && is_one_line(HEADER_TOP@[8]@)) by {
        reveal_strlit("#  ██████╔╝██║  ██║   ██║          ██║  ██║╚██████╔╝██║ ╚████║");
        lemma_opens(HEADER_TOP@[8]@, 0);
    }
    assert(is_quiet(HEADER_TOP@[9]@) && is_one_line(HEADER_TOP@[9]@)) by {
        reveal_strlit("#  ╚═════╝ ╚═╝  ╚═╝   ╚═╝          ╚═╝  ╚═╝ ╚═════╝ ╚═╝  ╚═══╝");
        lemma_opens(HEADER_TOP@[9]@, 0);
    }
    assert(is_quiet(HEADER_TOP@[10]@) && is_one_line(HEADER_TOP@[10]@)) by {
        reveal_strlit("#");
        lemma_opens(HEADER_TOP@[10]@, 0);
    }
    assert(is_quiet(HEADER_TOP@[11]@) && is_one_line(HEADER_TOP@[11]@)) by {
        reveal_strlit("#  ⚠  THIS SCRIPT MAKES NO CHANGES BY DEFAULT.");
        lemma_opens(HEADER_TOP@[11]@, 0);
    }
    assert(is_quiet(HEADER_TOP@[12]@) && is_one_line(HEADER_TOP@[12]@)) by {
        reveal_strlit("#     It uses Write-Host to print what WOULD be done.");
        lemma_opens(HEADER_TOP@[12]@, 0);
    }
    assert(is_quiet(HEADER_TOP@[13]@) && is_one_line(HEADER_TOP@[13]@)) by {
        reveal_strlit("#     To convert to live mode, follow the instructions in each block.");
        lemma_opens(HEADER_TOP@[13]@, 0);
    }
    assert(is_quiet(HEADER_TOP@[14]@) && is_one_line(HEADER_TOP@[14]@)) by {
        reveal_strlit("#");
        lemma_opens(HEADER_TOP@[14]@, 0);
    }
}

pub proof fn lemma_header_top()
    ensures
        are_calm(texts(HEADER_TOP@)),
{
    lemma_header_top_from_0();
    lemma_header_top_from_8();
}

pub proof fn lemma_header_bottom()
    ensures
        are_calm(texts(HEADER_BOTTOM@)),
{
    lemma_empty_line();
    assert(is_quiet(HEADER_BOTTOM@[0]@) && is_one_line(HEADER_BOTTOM@[0]@)) by {
        reveal_strlit("#");
        lemma_opens(HEADER_BOTTOM@[0]@, 0);
    }
    assert(is_quiet(HEADER_BOTTOM@[1]@) && is_one_line(HEADER_BOTTOM@[1]@)) by {
        reveal_strlit("#  CHANGE MANAGEMENT: This script should be reviewed in your");
        lemma_opens(HEADER_BOTTOM@[1]@, 0);
    }
    assert(is_quiet(HEADER_BOTTOM@[2]@) && is_one_line(HEADER_BOTTOM@[2]@)) by {
        reveal_strlit("#  organization's change control process before ANY modifications");
        lemma_opens(HEADER_BOTTOM@[2]@, 0);
    }
    assert(is_quiet(HEADER_BOTTOM@[3]@) && is_one_line(HEADER_BOTTOM@[3]@)) by {
        reveal_strlit("#  are made live. File server ACL changes can cause immediate");
        lemma_opens(HEADER_BOTTOM@[3]@, 0);
    }
    assert(is_quiet(HEADER_BOTTOM@[4]@) && is_one_line(HEADER_BOTTOM@[4]@)) by {
        reveal_strlit("#  access disruptions across the enterprise.");
        lemma_opens(HEADER_BOTTOM@[4]@, 0);
    }
    assert(is_quiet(HEADER_BOTTOM@[5]@) && is_one_line(HEADER_BOTTOM@[5]@)) by {
        reveal_strlit("#");
        lemma_opens(HEADER_BOTTOM@[5]@, 0);
    }
    assert(is_quiet(HEADER_BOTTOM@[6]@) && is_one_line(HEADER_BOTTOM@[6]@)) by {
        reveal_strlit("# ══════════════════════════════════════════════════════════════════════════════");
        lemma_opens(HEADER_BOTTOM@[6]@, 0);
    }
}

proof fn lemma_safety_from_0()
    ensures
        forall|i: int|
            #![trigger texts(SAFETY@)[i]]
            0 <= i < 8 ==> is_quiet(texts(SAFETY@)[i]) && is_one_line(texts(SAFETY@)[i]),
{
    lemma_empty_line();
    assert(is_quiet(SAFETY@[0]@) && is_one_line(SAFETY@[0]@)) by {
        reveal_strlit("#Requires -RunAsAdministrator");
        lemma_opens(SAFETY@[0]@, 0);
    }
    assert(is_quiet(SAFETY@[2]@) && is_one_line(SAFETY@[2]@)) by {
        reveal_strlit("# ──────────────────────────────────────────────────────────────────────────────");
        lemma_opens(SAFETY@[2]@, 0);
    }
    assert(is_quiet(SAFETY@[3]@) && is_one_line(SAFETY@[3]@)) by {
        reveal_strlit("# SAFETY CONFIGURATION");
        lemma_opens(SAFETY@[3]@, 0);
    }
    assert(is_quiet(SAFETY@[4]@) && is_one_line(SAFETY@[4]@)) by {
        reveal_strlit("# ──────────────────────────────────────────────────────────────────────────────");
        lemma_opens(SAFETY@[4]@, 0);
    }
    assert(is_quiet(SAFETY@[6]@) && is_one_line(SAFETY@[6]@)) by {
        reveal_strlit("# Halt on ANY error. In an enterprise environment, partial ACL changes");
        lemma_opens(SAFETY@[6]@, 0);
    }
    assert(is_quiet(SAFETY@[7]@) && is_one_line(SAFETY@[7]@)) by {
        reveal_strlit("# are worse than no changes at all — they create inconsistent state.");
        lemma_opens(SAFETY@[7]@, 0);
    }
}

proof fn lemma_safety_from_8()
    ensures
        forall|i: int|
            #![trigger texts(SAFETY@)[i]]
            8 <= i < 16 ==> is_quiet(texts(SAFETY@)[i]) && is_one_line(texts(SAFETY@)[i]),
{
    lemma_empty_line();
    assert(is_quiet(SAFETY@[8]@) && is_one_line(SAFETY@[8]@)) by {
        reveal_strlit("$ErrorActionPreference = 'Stop'");
        lemma_opens(SAFETY@[8]@, 0);
    }
    assert(is_quiet(SAFETY@[10]@) && is_one_line(SAFETY@[10]@)) by {
        reveal_strlit("# Catch common scripting mistakes (undefined variables, etc.)");
        lemma_opens(SAFETY@[10]@, 0);
    }
    lemma_strict_mode();
    assert(is_quiet(SAFETY@[13]@) && is_one_line(SAFETY@[13]@)) by {
        reveal_strlit("# Audit trail: log all console output to a timestamped transcript file.");
        lemma_opens(SAFETY@[13]@, 0);
    }
    assert(is_quiet(SAFETY@[14]@) && is_one_line(SAFETY@[14]@)) by {
        reveal_strlit("# This is required by most enterprise change management frameworks.");
        lemma_opens(SAFETY@[14]@, 0);
    }
    assert(is_quiet(SAFETY@[15]@) && is_one_line(SAFETY@[15]@)) by {
        reveal_strlit("$TranscriptPath = Join-Path $PSScriptRoot (\"FolSec_Remediation_$(Get-Date -Format 'yyyyMMdd_HHmmss').log\")");
        lemma_opens(SAFETY@[15]@, 0);
    }
}

proof fn lemma_safety_from_16()
    ensures
        forall|i: int|
            #![trigger texts(SAFETY@)[i]]
            16 <= i < 24 ==> is_quiet(texts(SAFETY@)[i]) && is_one_line(texts(SAFETY@)[i]),
{
    lemma_empty_line();
    assert(is_quiet(SAFETY@[16]@) && is_one_line(SAFETY@[16]@)) by {
        reveal_strlit("Start-Transcript -Path $TranscriptPath -Append | Out-Null");
        lemma_opens(SAFETY@[16]@, 0);
    }
    assert(is_quiet(SAFETY@[18]@) && is_one_line(SAFETY@[18]@)) by {
        reveal_strlit("# ── Execution Mode ─────────────────────────────────────────────────────────");
        lemma_opens(SAFETY@[18]@, 0);
    }
    assert(is_quiet(SAFETY@[19]@) && is_one_line(SAFETY@[19]@)) by {
        reveal_strlit("# By default, $LiveMode is $false. The script ONLY prints what it would do.");
        lemma_opens(SAFETY@[19]@, 0);
    }
    assert(is_quiet(SAFETY@[20]@) && is_one_line(SAFETY@[20]@)) by {
        reveal_strlit("# To enable LIVE remediation:");
        lemma_opens(SAFETY@[20]@, 0);
    }
    assert(is_quiet(SAFETY@[21]@) && is_one_line(SAFETY@[21]@)) by {
        reveal_strlit("#   1. Get change approval from your AD team lead.");
        lemma_opens(SAFETY@[21]@, 0);
    }
    assert(is_quiet(SAFETY@[22]@) && is_one_line(SAFETY@[22]@)) by {
        reveal_strlit("#   2. Set $LiveMode = $true below.");
        lemma_opens(SAFETY@[22]@, 0);
    }
    assert(is_quiet(SAFETY@[23]@) && is_one_line(SAFETY@[23]@)) by {
        reveal_strlit("#   3. The script will prompt for confirmation before proceeding.");
        lemma_opens(SAFETY@[23]@, 0);
    }
}

proof fn lemma_safety_from_24()
    ensures
        forall|i: int|
            #![trigger texts(SAFETY@)[i]]
            24 <= i < 32 ==> is_one_line(texts(SAFETY@)[i]) && (i == 24 || is_quiet(texts(SAFETY@)[i])),
{
    lemma_empty_line();
    assert(is_one_line(SAFETY@[24]@)) by {
        reveal_strlit("$LiveMode = $false");
    }
    assert(is_quiet(SAFETY@[26]@) && is_one_line(SAFETY@[26]@)) by {
        reveal_strlit("if ($LiveMode) {");
        lemma_opens(SAFETY@[26]@, 0);
    }
    assert(is_quiet(SAFETY@[27]@) && is_one_line(SAFETY@[27]@)) by {
        reveal_strlit("    Write-Host \"\" ");
        lemma_opens(SAFETY@[27]@, 4);
    }
    assert(is_quiet(SAFETY@[28]@) && is_one_line(SAFETY@[28]@)) by {
        reveal_strlit("    Write-Host \"╔══════════════════════════════════════════════════════════════╗\" -ForegroundColor Red");
        lemma_opens(SAFETY@[28]@, 4);
    }
    assert(is_quiet(SAFETY@[29]@) && is_one_line(SAFETY@[29]@)) by {
        reveal_strlit("    Write-Host \"║  ⚠  LIVE MODE ENABLED — ACL CHANGES WILL BE APPLIED!       ║\" -ForegroundColor Red");
        lemma_opens(SAFETY@[29]@, 4);
    }
    assert(is_quiet(SAFETY@[30]@) && is_one_line(SAFETY@[30]@)) by {
        reveal_strlit("    Write-Host \"║  This action is IRREVERSIBLE without a backup.              ║\" -ForegroundColor Red");
        lemma_opens(SAFETY@[30]@, 4);
    }
    assert(is_quiet(SAFETY@[31]@) && is_one_line(SAFETY@[31]@)) by {
        reveal_strlit("    Write-Host \"║  Ensure you have a full ACL backup (icacls /save).          ║\" -ForegroundColor Red");
        lemma_opens(SAFETY@[31]@, 4);
    }
}

proof fn lemma_safety_from_32()
    ensures
        forall|i: int|
            #![trigger texts(SAFETY@)[i]]
            32 <= i < 40 ==> is_quiet(texts(SAFETY@)[i]) && is_one_line(texts(SAFETY@)[i]),
{
    assert(is_quiet(SAFETY@[32]@) && is_one_line(SAFETY@[32]@)) by {
        reveal_strlit("    Write-Host \"╚══════════════════════════════════════════════════════════════╝\" -ForegroundColor Red");
        lemma_opens(SAFETY@[32]@, 4);
    }
    assert(is_quiet(SAFETY@[33]@) && is_one_line(SAFETY@[33]@)) by {
        reveal_strlit("    Write-Host \"\" ");
        lemma_opens(SAFETY@[33]@, 4);
    }
    assert(is_quiet(SAFETY@[34]@) && is_one_line(SAFETY@[34]@)) by {
        reveal_strlit("    $confirm = Read-Host \"Type 'APPLY CHANGES' to proceed, or press Enter to abort\"");
        lemma_opens(SAFETY@[34]@, 4);
    }
    assert(is_quiet(SAFETY@[35]@) && is_one_line(SAFETY@[35]@)) by {
        reveal_strlit("    if ($confirm -ne 'APPLY CHANGES') {");
        lemma_opens(SAFETY@[35]@, 4);
    }
    assert(is_quiet(SAFETY@[36]@) && is_one_line(SAFETY@[36]@)) by {
        reveal_strlit("        Write-Host \"Aborted. No changes were made.\" -ForegroundColor Green");
        lemma_opens(SAFETY@[36]@, 8);
    }
    assert(is_quiet(SAFETY@[37]@) && is_one_line(SAFETY@[37]@)) by {
        reveal_strlit("        Stop-Transcript | Out-Null");
        lemma_opens(SAFETY@[37]@, 8);
    }
    assert(is_quiet(SAFETY@[38]@) && is_one_line(SAFETY@[38]@)) by {
        reveal_strlit("        exit 0");
        lemma_opens(SAFETY@[38]@, 8);
    }
    assert(is_quiet(SAFETY@[39]@) && is_one_line(SAFETY@[39]@)) by {
        reveal_strlit("    }");
        lemma_opens(SAFETY@[39]@, 4);
    }
}

proof fn lemma_safety_from_40()
    ensures
        forall|i: int|
            #![trigger texts(SAFETY@)[i]]
            40 <= i < 44 ==> is_quiet(texts(SAFETY@)[i]) && is_one_line(texts(SAFETY@)[i]),
{
    lemma_empty_line();
    assert(is_quiet(SAFETY@[40]@) && is_one_line(SAFETY@[40]@)) by {
        reveal_strlit("    Write-Host \"Proceeding with LIVE remediation...\" -ForegroundColor Red");
        lemma_opens(SAFETY@[40]@, 4);
    }
    assert(is_quiet(SAFETY@[41]@) && is_one_line(SAFETY@[41]@)) by {
        reveal_strlit("    Write-Host \"\" ");
        lemma_opens(SAFETY@[41]@, 4);
    }
    assert(is_quiet(SAFETY@[42]@) && is_one_line(SAFETY@[42]@)) by {
        reveal_strlit("}");
        lemma_opens(SAFETY@[42]@, 0);
    }
}

pub proof fn lemma_safety()
    ensures
        forall|i: int|
            #![trigger texts(SAFETY@)[i]]
            0 <= i < 44 ==> is_one_line(texts(SAFETY@)[i]) && (i == 24 || is_quiet(texts(SAFETY@)[i])),
{
    lemma_safety_from_0();
    lemma_safety_from_8();
    lemma_safety_from_16();
    lemma_safety_from_24();
    lemma_safety_from_32();
    lemma_safety_from_40();
}

pub proof fn lemma_banner_top()
    ensures
        are_calm(texts(BANNER_TOP@)),
{
    lemma_empty_line();
    assert(is_quiet(BANNER_TOP@[0]@) && is_one_line(BANNER_TOP@[0]@)) by {
        reveal_strlit("# ──────────────────────────────────────────────────────────────────────────────");
        lemma_opens(BANNER_TOP@[0]@, 0);
    }
    assert(is_quiet(BANNER_TOP@[1]@) && is_one_line(BANNER_TOP@[1]@)) by {
        reveal_strlit("# RUNTIME BANNER");
        lemma_opens(BANNER_TOP@[1]@, 0);
    }
    assert(is_quiet(BANNER_TOP@[2]@) && is_one_line(BANNER_TOP@[2]@)) by {
        reveal_strlit("# ──────────────────────────────────────────────────────────────────────────────");
        lemma_opens(BANNER_TOP@[2]@, 0);
    }
    assert(is_quiet(BANNER_TOP@[4]@) && is_one_line(BANNER_TOP@[4]@)) by {
        reveal_strlit("Write-Host \"\" ");
        lemma_opens(BANNER_TOP@[4]@, 0);
    }
    assert(is_quiet(BANNER_TOP@[5]@) && is_one_line(BANNER_TOP@[5]@)) by {
        reveal_strlit("Write-Host \"━━━━━━━━━━━━━━━━━━━━━━━━━━━━━━━━━━━━━━━━━━━━━━━━━━━━━━━━━━━━\" -ForegroundColor Cyan");
        lemma_opens(BANNER_TOP@[5]@, 0);
    }
    assert(is_quiet(BANNER_TOP@[6]@) && is_one_line(BANNER_TOP@[6]@)) by {
        reveal_strlit("Write-Host \"  FolSec NTFS Auditor — Remediation Script\" -ForegroundColor Cyan");
        lemma_opens(BANNER_TOP@[6]@, 0);
    }
    assert(is_quiet(BANNER_TOP@[7]@) && is_one_line(BANNER_TOP@[7]@)) by {
        reveal_strlit("Write-Host \"━━━━━━━━━━━━━━━━━━━━━━━━━━━━━━━━━━━━━━━━━━━━━━━━━━━━━━━━━━━━\" -ForegroundColor Cyan");
        lemma_opens(BANNER_TOP@[7]@, 0);
    }
}

proof fn lemma_banner_bottom_from_0()
    ensures
        forall|i: int|
            #![trigger texts(BANNER_BOTTOM@)[i]]
            0 <= i < 8 ==> is_quiet(texts(BANNER_BOTTOM@)[i]) && is_one_line(texts(BANNER_BOTTOM@)[i]),
{
    lemma_empty_line();
    assert(is_quiet(BANNER_BOTTOM@[0]@) && is_one_line(BANNER_BOTTOM@[0]@)) by {
        reveal_strlit("Write-Host \"  Mode:             $(if ($LiveMode) { 'LIVE' } else { 'DRY-RUN' })\" -ForegroundColor $(if ($LiveMode) { 'Red' } else { 'Green' })");
        lemma_opens(BANNER_BOTTOM@[0]@, 0);
    }
    assert(is_quiet(BANNER_BOTTOM@[1]@) && is_one_line(BANNER_BOTTOM@[1]@)) by {
        reveal_strlit("Write-Host \"━━━━━━━━━━━━━━━━━━━━━━━━━━━━━━━━━━━━━━━━━━━━━━━━━━━━━━━━━━━━\" -ForegroundColor Cyan");
        lemma_opens(BANNER_BOTTOM@[1]@, 0);
    }
    assert(is_quiet(BANNER_BOTTOM@[2]@) && is_one_line(BANNER_BOTTOM@[2]@)) by {
        reveal_strlit("Write-Host \"\" ");
        lemma_opens(BANNER_BOTTOM@[2]@, 0);
    }
    assert(is_quiet(BANNER_BOTTOM@[4]@) && is_one_line(BANNER_BOTTOM@[4]@)) by {
        reveal_strlit("# ── Tracking counters ──────────────────────────────────────────────────────");
        lemma_opens(BANNER_BOTTOM@[4]@, 0);
    }
    assert(is_quiet(BANNER_BOTTOM@[5]@) && is_one_line(BANNER_BOTTOM@[5]@)) by {
        reveal_strlit("$ActionCount     = 0   # Number of remediation actions processed");
        lemma_opens(BANNER_BOTTOM@[5]@, 0);
    }
    assert(is_quiet(BANNER_BOTTOM@[6]@) && is_one_line(BANNER_BOTTOM@[6]@)) by {
        reveal_strlit("$SuccessCount    = 0   # Successful actions (live mode only)");
        lemma_opens(BANNER_BOTTOM@[6]@, 0);
    }
    assert(is_quiet(BANNER_BOTTOM@[7]@) && is_one_line(BANNER_BOTTOM@[7]@)) by {
        reveal_strlit("$ErrorCount      = 0   # Failed actions (live mode only)");
        lemma_opens(BANNER_BOTTOM@[7]@, 0);
    }
}

proof fn lemma_banner_bottom_from_8()
    ensures
        forall|i: int|
            #![trigger texts(BANNER_BOTTOM@)[i]]
            8 <= i < 10 ==> is_quiet(texts(BANNER_BOTTOM@)[i]) && is_one_line(texts(BANNER_BOTTOM@)[i]),
{
    lemma_empty_line();
    assert(is_quiet(BANNER_BOTTOM@[8]@) && is_one_line(BANNER_BOTTOM@[8]@)) by {
        reveal_strlit("$SkippedCount    = 0   # Skipped (path not found, etc.)");
        lemma_opens(BANNER_BOTTOM@[8]@, 0);
    }
}

pub proof fn lemma_banner_bottom()
    ensures
        are_calm(texts(BANNER_BOTTOM@)),
{
    lemma_banner_bottom_from_0();
    lemma_banner_bottom_from_8();
}

pub proof fn lemma_folders_top()
    ensures
        are_calm(texts(FOLDERS_TOP@)),
{
    lemma_empty_line();
    assert(is_quiet(FOLDERS_TOP@[0]@) && is_one_line(FOLDERS_TOP@[0]@)) by {
        reveal_strlit("# ──────────────────────────────────────────────────────────────────────────────");
        lemma_opens(FOLDERS_TOP@[0]@, 0);
    }
    assert(is_quiet(FOLDERS_TOP@[1]@) && is_one_line(FOLDERS_TOP@[1]@)) by {
        reveal_strlit("# TOP 5 RISKIEST FOLDERS");
        lemma_opens(FOLDERS_TOP@[1]@, 0);
    }
    assert(is_quiet(FOLDERS_TOP@[2]@) && is_one_line(FOLDERS_TOP@[2]@)) by {
        reveal_strlit("# ──────────────────────────────────────────────────────────────────────────────");
        lemma_opens(FOLDERS_TOP@[2]@, 0);
    }
    assert(is_quiet(FOLDERS_TOP@[4]@) && is_one_line(FOLDERS_TOP@[4]@)) by {
        reveal_strlit("Write-Host \"\" ");
        lemma_opens(FOLDERS_TOP@[4]@, 0);
    }
    assert(is_quiet(FOLDERS_TOP@[5]@) && is_one_line(FOLDERS_TOP@[5]@)) by {
        reveal_strlit("Write-Host \"┌──────────────────────────────────────────────────────────────┐\" -ForegroundColor Red");
        lemma_opens(FOLDERS_TOP@[5]@, 0);
    }
    assert(is_quiet(FOLDERS_TOP@[6]@) && is_one_line(FOLDERS_TOP@[6]@)) by {
        reveal_strlit("Write-Host \"│  🔥 TOP 5 RISKIEST FOLDERS                                  │\" -ForegroundColor Red");
        lemma_opens(FOLDERS_TOP@[6]@, 0);
    }
    assert(is_quiet(FOLDERS_TOP@[7]@) && is_one_line(FOLDERS_TOP@[7]@)) by {
        reveal_strlit("Write-Host \"├──────────────────────────────────────────────────────────────┤\" -ForegroundColor Red");
        lemma_opens(FOLDERS_TOP@[7]@, 0);
    }
}

pub proof fn lemma_folders_bottom()
    ensures
        are_calm(texts(FOLDERS_BOTTOM@)),
{
    lemma_empty_line();
    assert(is_quiet(FOLDERS_BOTTOM@[0]@) && is_one_line(FOLDERS_BOTTOM@[0]@)) by {
        reveal_strlit("Write-Host \"└──────────────────────────────────────────────────────────────┘\" -ForegroundColor Red");
        lemma_opens(FOLDERS_BOTTOM@[0]@, 0);
    }
    assert(is_quiet(FOLDERS_BOTTOM@[1]@) && is_one_line(FOLDERS_BOTTOM@[1]@)) by {
        reveal_strlit("Write-Host \"\" ");
        lemma_opens(FOLDERS_BOTTOM@[1]@, 0);
    }
}

pub proof fn lemma_notes_bottom()
    ensures
        are_calm(texts(NOTES_BOTTOM@)),
{
    lemma_empty_line();
    assert(is_quiet(NOTES_BOTTOM@[0]@) && is_one_line(NOTES_BOTTOM@[0]@)) by {
        reveal_strlit("#");
        lemma_opens(NOTES_BOTTOM@[0]@, 0);
    }
    assert(is_quiet(NOTES_BOTTOM@[1]@) && is_one_line(NOTES_BOTTOM@[1]@)) by {
        reveal_strlit("# Recommendation: Review all sub-actions below before enabling live mode.");
        lemma_opens(NOTES_BOTTOM@[1]@, 0);
    }
    assert(is_quiet(NOTES_BOTTOM@[2]@) && is_one_line(NOTES_BOTTOM@[2]@)) by {
        reveal_strlit("# ══════════════════════════════════════════════════════════════════════════════");
        lemma_opens(NOTES_BOTTOM@[2]@, 0);
    }
}

pub proof fn lemma_actions_top()
    ensures
        are_calm(texts(ACTIONS_TOP@)),
{
    lemma_empty_line();
    assert(is_quiet(ACTIONS_TOP@[1]@) && is_one_line(ACTIONS_TOP@[1]@)) by {
        reveal_strlit("if (Test-Path -LiteralPath $targetPath) {");
        lemma_opens(ACTIONS_TOP@[1]@, 0);
    }
    assert(is_quiet(ACTIONS_TOP@[2]@) && is_one_line(ACTIONS_TOP@[2]@)) by {
        reveal_strlit("    if ($LiveMode) {");
        lemma_opens(ACTIONS_TOP@[2]@, 4);
    }
    assert(is_quiet(ACTIONS_TOP@[3]@) && is_one_line(ACTIONS_TOP@[3]@)) by {
        reveal_strlit("        # ── LIVE: Apply all remediation actions for this path ──");
        lemma_opens(ACTIONS_TOP@[3]@, 8);
    }
    assert(is_quiet(ACTIONS_TOP@[4]@) && is_one_line(ACTIONS_TOP@[4]@)) by {
        reveal_strlit("        try {");
        lemma_opens(ACTIONS_TOP@[4]@, 8);
    }
    assert(is_quiet(ACTIONS_TOP@[5]@) && is_one_line(ACTIONS_TOP@[5]@)) by {
        reveal_strlit("            $acl = Get-Acl -LiteralPath $targetPath");
        lemma_opens(ACTIONS_TOP@[5]@, 12);
    }
    assert(is_quiet(ACTIONS_TOP@[6]@) && is_one_line(ACTIONS_TOP@[6]@)) by {
        reveal_strlit("            $modified = $false");
        lemma_opens(ACTIONS_TOP@[6]@, 12);
    }
}

pub proof fn lemma_grant_removal()
    ensures
        are_calm(texts(GRANT_REMOVAL@)),
{
    assert(is_quiet(GRANT_REMOVAL@[0]@) && is_one_line(GRANT_REMOVAL@[0]@)) by {
        reveal_strlit("            }");
        lemma_opens(GRANT_REMOVAL@[0]@, 12);
    }
    assert(is_quiet(GRANT_REMOVAL@[1]@) && is_one_line(GRANT_REMOVAL@[1]@)) by {
        reveal_strlit("            foreach ($rule in $rulesToRemove) {");
        lemma_opens(GRANT_REMOVAL@[1]@, 12);
    }
    assert(is_quiet(GRANT_REMOVAL@[2]@) && is_one_line(GRANT_REMOVAL@[2]@)) by {
        reveal_strlit("                $acl.RemoveAccessRule($rule) | Out-Null");
        lemma_opens(GRANT_REMOVAL@[2]@, 16);
    }
    assert(is_quiet(GRANT_REMOVAL@[3]@) && is_one_line(GRANT_REMOVAL@[3]@)) by {
        reveal_strlit("                $modified = $true");
        lemma_opens(GRANT_REMOVAL@[3]@, 16);
    }
    assert(is_quiet(GRANT_REMOVAL@[4]@) && is_one_line(GRANT_REMOVAL@[4]@)) by {
        reveal_strlit("            }");
        lemma_opens(GRANT_REMOVAL@[4]@, 12);
    }
}

pub proof fn lemma_break_repair()
    ensures
        are_calm(texts(BREAK_REPAIR@)),
{
    assert(is_quiet(BREAK_REPAIR@[0]@) && is_one_line(BREAK_REPAIR@[0]@)) by {
        reveal_strlit("            # SetAccessRuleProtection($isProtected, $preserveInheritance)");
        lemma_opens(BREAK_REPAIR@[0]@, 12);
    }
    assert(is_quiet(BREAK_REPAIR@[1]@) && is_one_line(BREAK_REPAIR@[1]@)) by {
        reveal_strlit("            #   $false = not protected = inheritance flows through");
        lemma_opens(BREAK_REPAIR@[1]@, 12);
    }
    assert(is_quiet(BREAK_REPAIR@[2]@) && is_one_line(BREAK_REPAIR@[2]@)) by {
        reveal_strlit("            #   $false = do not preserve existing explicit ACEs");
        lemma_opens(BREAK_REPAIR@[2]@, 12);
    }
    assert(is_quiet(BREAK_REPAIR@[3]@) && is_one_line(BREAK_REPAIR@[3]@)) by {
        reveal_strlit("            $acl.SetAccessRuleProtection($false, $false)");
        lemma_opens(BREAK_REPAIR@[3]@, 12);
    }
    assert(is_quiet(BREAK_REPAIR@[4]@) && is_one_line(BREAK_REPAIR@[4]@)) by {
        reveal_strlit("            $modified = $true");
        lemma_opens(BREAK_REPAIR@[4]@, 12);
    }
}

pub proof fn lemma_orphan_removal()
    ensures
        are_calm(texts(ORPHAN_REMOVAL@)),
{
    assert(is_quiet(ORPHAN_REMOVAL@[0]@) && is_one_line(ORPHAN_REMOVAL@[0]@)) by {
        reveal_strlit("            }");
        lemma_opens(ORPHAN_REMOVAL@[0]@, 12);
    }
    assert(is_quiet(ORPHAN_REMOVAL@[1]@) && is_one_line(ORPHAN_REMOVAL@[1]@)) by {
        reveal_strlit("            foreach ($rule in $orphanRules) {");
        lemma_opens(ORPHAN_REMOVAL@[1]@, 12);
    }
    assert(is_quiet(ORPHAN_REMOVAL@[2]@) && is_one_line(ORPHAN_REMOVAL@[2]@)) by {
        reveal_strlit("                $acl.RemoveAccessRule($rule) | Out-Null");
        lemma_opens(ORPHAN_REMOVAL@[2]@, 16);
    }
    assert(is_quiet(ORPHAN_REMOVAL@[3]@) && is_one_line(ORPHAN_REMOVAL@[3]@)) by {
        reveal_strlit("                $modified = $true");
        lemma_opens(ORPHAN_REMOVAL@[3]@, 16);
    }
    assert(is_quiet(ORPHAN_REMOVAL@[4]@) && is_one_line(ORPHAN_REMOVAL@[4]@)) by {
        reveal_strlit("            }");
        lemma_opens(ORPHAN_REMOVAL@[4]@, 12);
    }
}

pub proof fn lemma_commit_top()
    ensures
        forall|i: int|
            #![trigger texts(COMMIT_TOP@)[i]]
            0 <= i < 6 ==> is_one_line(texts(COMMIT_TOP@)[i]) && (i == 2 || is_quiet(texts(COMMIT_TOP@)[i])),
{
    lemma_empty_line();
    assert(is_quiet(COMMIT_TOP@[1]@) && is_one_line(COMMIT_TOP@[1]@)) by {
        reveal_strlit("            if ($modified) {");
        lemma_opens(COMMIT_TOP@[1]@, 12);
    }
    assert(is_one_line(COMMIT_TOP@[2]@)) by {
        reveal_strlit("                Set-Acl -LiteralPath $targetPath -AclObject $acl -WhatIf");
    }
    assert(is_quiet(COMMIT_TOP@[3]@) && is_one_line(COMMIT_TOP@[3]@)) by {
        reveal_strlit("                # NOTE: Remove '-WhatIf' above ONLY after thorough review.");
        lemma_opens(COMMIT_TOP@[3]@, 16);
    }
    assert(is_quiet(COMMIT_TOP@[4]@) && is_one_line(COMMIT_TOP@[4]@)) by {
        reveal_strlit("                # Set-Acl -LiteralPath $targetPath -AclObject $acl");
        lemma_opens(COMMIT_TOP@[4]@, 16);
    }
    assert(is_quiet(COMMIT_TOP@[5]@) && is_one_line(COMMIT_TOP@[5]@)) by {
        reveal_strlit("                $SuccessCount++");
        lemma_opens(COMMIT_TOP@[5]@, 16);
    }
}

pub proof fn lemma_commit_bottom()
    ensures
        are_calm(texts(COMMIT_BOTTOM@)),
{
    assert(is_quiet(COMMIT_BOTTOM@[0]@) && is_one_line(COMMIT_BOTTOM@[0]@)) by {
        reveal_strlit("            }");
        lemma_opens(COMMIT_BOTTOM@[0]@, 12);
    }
    assert(is_quiet(COMMIT_BOTTOM@[1]@) && is_one_line(COMMIT_BOTTOM@[1]@)) by {
        reveal_strlit("        } catch {");
        lemma_opens(COMMIT_BOTTOM@[1]@, 8);
    }
    assert(is_quiet(COMMIT_BOTTOM@[2]@) && is_one_line(COMMIT_BOTTOM@[2]@)) by {
        reveal_strlit("            $ErrorCount++");
        lemma_opens(COMMIT_BOTTOM@[2]@, 12);
    }
    assert(is_quiet(COMMIT_BOTTOM@[3]@) && is_one_line(COMMIT_BOTTOM@[3]@)) by {
        reveal_strlit("            Write-Host \"  [ERROR] Failed to modify ACL on: $targetPath — $_\" -ForegroundColor Red");
        lemma_opens(COMMIT_BOTTOM@[3]@, 12);
    }
    assert(is_quiet(COMMIT_BOTTOM@[4]@) && is_one_line(COMMIT_BOTTOM@[4]@)) by {
        reveal_strlit("        }");
        lemma_opens(COMMIT_BOTTOM@[4]@, 8);
    }
    assert(is_quiet(COMMIT_BOTTOM@[5]@) && is_one_line(COMMIT_BOTTOM@[5]@)) by {
        reveal_strlit("    } else {");
        lemma_opens(COMMIT_BOTTOM@[5]@, 4);
    }
    assert(is_quiet(COMMIT_BOTTOM@[6]@) && is_one_line(COMMIT_BOTTOM@[6]@)) by {
        reveal_strlit("        # ── DRY-RUN: Describe what would happen ──");
        lemma_opens(COMMIT_BOTTOM@[6]@, 8);
    }
}

pub proof fn lemma_dry_bottom()
    ensures
        are_calm(texts(DRY_BOTTOM@)),
{
    assert(is_quiet(DRY_BOTTOM@[0]@) && is_one_line(DRY_BOTTOM@[0]@)) by {
        reveal_strlit("    }");
        lemma_opens(DRY_BOTTOM@[0]@, 4);
    }
    assert(is_quiet(DRY_BOTTOM@[1]@) && is_one_line(DRY_BOTTOM@[1]@)) by {
        reveal_strlit("} else {");
        lemma_opens(DRY_BOTTOM@[1]@, 0);
    }
    assert(is_quiet(DRY_BOTTOM@[2]@) && is_one_line(DRY_BOTTOM@[2]@)) by {
        reveal_strlit("    $SkippedCount++");
        lemma_opens(DRY_BOTTOM@[2]@, 4);
    }
}

pub proof fn lemma_block_bottom()
    ensures
        are_calm(texts(BLOCK_BOTTOM@)),
{
    lemma_empty_line();
    assert(is_quiet(BLOCK_BOTTOM@[0]@) && is_one_line(BLOCK_BOTTOM@[0]@)) by {
        reveal_strlit("}");
        lemma_opens(BLOCK_BOTTOM@[0]@, 0);
    }
}

pub proof fn lemma_triage_bottom()
    ensures
        are_calm(texts(TRIAGE_BOTTOM@)),
{
    lemma_empty_line();
    assert(is_quiet(TRIAGE_BOTTOM@[0]@) && is_one_line(TRIAGE_BOTTOM@[0]@)) by {
        reveal_strlit("#");
        lemma_opens(TRIAGE_BOTTOM@[0]@, 0);
    }
    assert(is_quiet(TRIAGE_BOTTOM@[1]@) && is_one_line(TRIAGE_BOTTOM@[1]@)) by {
        reveal_strlit("# No automated fix is generated for this finding type.");
        lemma_opens(TRIAGE_BOTTOM@[1]@, 0);
    }
    assert(is_quiet(TRIAGE_BOTTOM@[2]@) && is_one_line(TRIAGE_BOTTOM@[2]@)) by {
        reveal_strlit("# Please review the HTML report for full details and remediate manually.");
        lemma_opens(TRIAGE_BOTTOM@[2]@, 0);
    }
    assert(is_quiet(TRIAGE_BOTTOM@[3]@) && is_one_line(TRIAGE_BOTTOM@[3]@)) by {
        reveal_strlit("# ──────────────────────────────────────────────────────────────────────────────");
        lemma_opens(TRIAGE_BOTTOM@[3]@, 0);
    }
}

pub proof fn lemma_footer_top()
    ensures
        are_calm(texts(FOOTER_TOP@)),
{
    lemma_empty_line();
    assert(is_quiet(FOOTER_TOP@[0]@) && is_one_line(FOOTER_TOP@[0]@)) by {
        reveal_strlit("# ══════════════════════════════════════════════════════════════════════════════");
        lemma_opens(FOOTER_TOP@[0]@, 0);
    }
    assert(is_quiet(FOOTER_TOP@[1]@) && is_one_line(FOOTER_TOP@[1]@)) by {
        reveal_strlit("# EXECUTION SUMMARY");
        lemma_opens(FOOTER_TOP@[1]@, 0);
    }
    assert(is_quiet(FOOTER_TOP@[2]@) && is_one_line(FOOTER_TOP@[2]@)) by {
        reveal_strlit("# ══════════════════════════════════════════════════════════════════════════════");
        lemma_opens(FOOTER_TOP@[2]@, 0);
    }
    assert(is_quiet(FOOTER_TOP@[4]@) && is_one_line(FOOTER_TOP@[4]@)) by {
        reveal_strlit("Write-Host \"\" ");
        lemma_opens(FOOTER_TOP@[4]@, 0);
    }
    assert(is_quiet(FOOTER_TOP@[5]@) && is_one_line(FOOTER_TOP@[5]@)) by {
        reveal_strlit("Write-Host \"━━━━━━━━━━━━━━━━━━━━━━━━━━━━━━━━━━━━━━━━━━━━━━━━━━━━━━━━━━━━\" -ForegroundColor Cyan");
        lemma_opens(FOOTER_TOP@[5]@, 0);
    }
    assert(is_quiet(FOOTER_TOP@[6]@) && is_one_line(FOOTER_TOP@[6]@)) by {
        reveal_strlit("Write-Host \"  Execution Summary\" -ForegroundColor Cyan");
        lemma_opens(FOOTER_TOP@[6]@, 0);
    }
    assert(is_quiet(FOOTER_TOP@[7]@) && is_one_line(FOOTER_TOP@[7]@)) by {
        reveal_strlit("Write-Host \"━━━━━━━━━━━━━━━━━━━━━━━━━━━━━━━━━━━━━━━━━━━━━━━━━━━━━━━━━━━━\" -ForegroundColor Cyan");
        lemma_opens(FOOTER_TOP@[7]@, 0);
    }
}

proof fn lemma_footer_bottom_from_0()
    ensures
        forall|i: int|
            #![trigger texts(FOOTER_BOTTOM@)[i]]
            0 <= i < 8 ==> is_quiet(texts(FOOTER_BOTTOM@)[i]) && is_one_line(texts(FOOTER_BOTTOM@)[i]),
{
    lemma_empty_line();
    assert(is_quiet(FOOTER_BOTTOM@[0]@) && is_one_line(FOOTER_BOTTOM@[0]@)) by {
        reveal_strlit("Write-Host \"  Processed:        $ActionCount\" -ForegroundColor Gray");
        lemma_opens(FOOTER_BOTTOM@[0]@, 0);
    }
    assert(is_quiet(FOOTER_BOTTOM@[1]@) && is_one_line(FOOTER_BOTTOM@[1]@)) by {
        reveal_strlit("Write-Host \"  Skipped:          $SkippedCount\" -ForegroundColor DarkGray");
        lemma_opens(FOOTER_BOTTOM@[1]@, 0);
    }
    assert(is_quiet(FOOTER_BOTTOM@[3]@) && is_one_line(FOOTER_BOTTOM@[3]@)) by {
        reveal_strlit("if ($LiveMode) {");
        lemma_opens(FOOTER_BOTTOM@[3]@, 0);
    }
    assert(is_quiet(FOOTER_BOTTOM@[4]@) && is_one_line(FOOTER_BOTTOM@[4]@)) by {
        reveal_strlit("    Write-Host \"  Succeeded:        $SuccessCount\" -ForegroundColor Green");
        lemma_opens(FOOTER_BOTTOM@[4]@, 4);
    }
    assert(is_quiet(FOOTER_BOTTOM@[5]@) && is_one_line(FOOTER_BOTTOM@[5]@)) by {
        reveal_strlit("    Write-Host \"  Failed:           $ErrorCount\" -ForegroundColor $(if ($ErrorCount -gt 0) { 'Red' } else { 'Green' })");
        lemma_opens(FOOTER_BOTTOM@[5]@, 4);
    }
    assert(is_quiet(FOOTER_BOTTOM@[6]@) && is_one_line(FOOTER_BOTTOM@[6]@)) by {
        reveal_strlit("} else {");
        lemma_opens(FOOTER_BOTTOM@[6]@, 0);
    }
    assert(is_quiet(FOOTER_BOTTOM@[7]@) && is_one_line(FOOTER_BOTTOM@[7]@)) by {
        reveal_strlit("    Write-Host \"  Mode:             DRY-RUN (no changes were made)\" -ForegroundColor Green");
        lemma_opens(FOOTER_BOTTOM@[7]@, 4);
    }
}

proof fn lemma_footer_bottom_from_8()
    ensures
        forall|i: int|
            #![trigger texts(FOOTER_BOTTOM@)[i]]
            8 <= i < 16 ==> is_quiet(texts(FOOTER_BOTTOM@)[i]) && is_one_line(texts(FOOTER_BOTTOM@)[i]),
{
    lemma_empty_line();
    assert(is_quiet(FOOTER_BOTTOM@[8]@) && is_one_line(FOOTER_BOTTOM@[8]@)) by {
        reveal_strlit("}");
        lemma_opens(FOOTER_BOTTOM@[8]@, 0);
    }
    assert(is_quiet(FOOTER_BOTTOM@[10]@) && is_one_line(FOOTER_BOTTOM@[10]@)) by {
        reveal_strlit("Write-Host \"━━━━━━━━━━━━━━━━━━━━━━━━━━━━━━━━━━━━━━━━━━━━━━━━━━━━━━━━━━━━\" -ForegroundColor Cyan");
        lemma_opens(FOOTER_BOTTOM@[10]@, 0);
    }
    assert(is_quiet(FOOTER_BOTTOM@[11]@) && is_one_line(FOOTER_BOTTOM@[11]@)) by {
        reveal_strlit("Write-Host \"\" ");
        lemma_opens(FOOTER_BOTTOM@[11]@, 0);
    }
    assert(is_quiet(FOOTER_BOTTOM@[13]@) && is_one_line(FOOTER_BOTTOM@[13]@)) by {
        reveal_strlit("Write-Host \"Next steps:\" -ForegroundColor White");
        lemma_opens(FOOTER_BOTTOM@[13]@, 0);
    }
    assert(is_quiet(FOOTER_BOTTOM@[14]@) && is_one_line(FOOTER_BOTTOM@[14]@)) by {
        reveal_strlit("Write-Host \"  1. Review each action above with your AD team lead.\" -ForegroundColor Gray");
        lemma_opens(FOOTER_BOTTOM@[14]@, 0);
    }
    assert(is_quiet(FOOTER_BOTTOM@[15]@) && is_one_line(FOOTER_BOTTOM@[15]@)) by {
        reveal_strlit("Write-Host \"  2. Submit this output through your change management process.\" -ForegroundColor Gray");
        lemma_opens(FOOTER_BOTTOM@[15]@, 0);
    }
}

proof fn lemma_footer_bottom_from_16()
    ensures
        forall|i: int|
            #![trigger texts(FOOTER_BOTTOM@)[i]]
            16 <= i < 24 ==> is_quiet(texts(FOOTER_BOTTOM@)[i]) && is_one_line(texts(FOOTER_BOTTOM@)[i]),
{
    lemma_empty_line();
    assert(is_quiet(FOOTER_BOTTOM@[16]@) && is_one_line(FOOTER_BOTTOM@[16]@)) by {
        reveal_strlit("Write-Host \"  3. Back up current ACLs:  icacls '<root>' /save acl_backup.txt /T\" -ForegroundColor Gray");
        lemma_opens(FOOTER_BOTTOM@[16]@, 0);
    }
    assert(is_quiet(FOOTER_BOTTOM@[17]@) && is_one_line(FOOTER_BOTTOM@[17]@)) by {
        reveal_strlit("Write-Host \"  4. Set `$LiveMode = `$true and re-run to apply (with -WhatIf safety).\" -ForegroundColor Gray");
        lemma_opens(FOOTER_BOTTOM@[17]@, 0);
    }
    assert(is_quiet(FOOTER_BOTTOM@[18]@) && is_one_line(FOOTER_BOTTOM@[18]@)) by {
        reveal_strlit("Write-Host \"  5. Remove -WhatIf from Set-Acl calls only after final approval.\" -ForegroundColor Gray");
        lemma_opens(FOOTER_BOTTOM@[18]@, 0);
    }
    assert(is_quiet(FOOTER_BOTTOM@[19]@) && is_one_line(FOOTER_BOTTOM@[19]@)) by {
        reveal_strlit("Write-Host \"\" ");
        lemma_opens(FOOTER_BOTTOM@[19]@, 0);
    }
    assert(is_quiet(FOOTER_BOTTOM@[20]@) && is_one_line(FOOTER_BOTTOM@[20]@)) by {
        reveal_strlit("Write-Host \"Transcript saved to: $TranscriptPath\" -ForegroundColor DarkGray");
        lemma_opens(FOOTER_BOTTOM@[20]@, 0);
    }
    assert(is_quiet(FOOTER_BOTTOM@[21]@) && is_one_line(FOOTER_BOTTOM@[21]@)) by {
        reveal_strlit("Write-Host \"Report & docs: https://folsec.com/remediation\" -ForegroundColor DarkGray");
        lemma_opens(FOOTER_BOTTOM@[21]@, 0);
    }
    assert(is_quiet(FOOTER_BOTTOM@[22]@) && is_one_line(FOOTER_BOTTOM@[22]@)) by {
        reveal_strlit("Write-Host \"\" ");
        lemma_opens(FOOTER_BOTTOM@[22]@, 0);
    }
}

proof fn lemma_footer_bottom_from_24()
    ensures
        forall|i: int|
            #![trigger texts(FOOTER_BOTTOM@)[i]]
            24 <= i < 25 ==> is_quiet(texts(FOOTER_BOTTOM@)[i]) && is_one_line(texts(FOOTER_BOTTOM@)[i]),
{
    assert(is_quiet(FOOTER_BOTTOM@[24]@) && is_one_line(FOOTER_BOTTOM@[24]@)) by {
        reveal_strlit("Stop-Transcript | Out-Null");
        lemma_opens(FOOTER_BOTTOM@[24]@, 0);
    }
}

pub proof fn lemma_footer_bottom()
    ensures
        are_calm(texts(FOOTER_BOTTOM@)),
{
    lemma_footer_bottom_from_0();
    lemma_footer_bottom_from_8();
    lemma_footer_bottom_from_16();
    lemma_footer_bottom_from_24();
}

proof fn lemma_strict_mode()
    ensures
        is_quiet("Set-StrictMode -Version Latest"@),
        is_one_line("Set-StrictMode -Version Latest"@),
{
    let line = "Set-StrictMode -Version Latest"@;
    reveal_strlit("Set-StrictMode -Version Latest");
    reveal_strlit("Set-Acl");
    reveal_strlit("icacls");
    reveal_strlit("$LiveMode");
    lemma_code(line, 0);
    assert(line.skip(0) =~= line);
    assert(line[0] == 'S' && line[4] == 'S');
    lemma_starts(line, "Set-Acl"@);
    lemma_starts(line, "icacls"@);
    lemma_starts(line, "$LiveMode"@);
}

/// The line that writes an access control list back is the only one of its kind.
pub proof fn lemma_what_if()
    ensures
        !runs(WHAT_IF@, "icacls"@),
        !runs(WHAT_IF@, "$LiveMode"@),
{
    reveal_strlit("                Set-Acl -LiteralPath $targetPath -AclObject $acl -WhatIf");
    reveal_strlit("icacls");
    reveal_strlit("$LiveMode");
    lemma_code(WHAT_IF@, 16);
    let code = code_of(WHAT_IF@);
    assert(code[0] == 'S');
    lemma_starts(code, "icacls"@);
    lemma_starts(code, "$LiveMode"@);
}

/// The line that turns live mode off does nothing else.
pub proof fn lemma_live_off()
    ensures
        runs(LIVE_OFF@, "$LiveMode"@),
        !runs(LIVE_OFF@, "icacls"@),
        !runs(LIVE_OFF@, "Set-Acl"@),
{
    reveal_strlit("$LiveMode = $false");
    reveal_strlit("Set-Acl");
    reveal_strlit("icacls");
    reveal_strlit("$LiveMode");
    lemma_code(LIVE_OFF@, 0);
    assert(LIVE_OFF@.skip(0) =~= LIVE_OFF@);
    assert(LIVE_OFF@.take(9) =~= "$LiveMode"@);
    lemma_starts(LIVE_OFF@, "icacls"@);
    lemma_starts(LIVE_OFF@, "Set-Acl"@);
}

/// The lines that stand alone.
pub proof fn lemma_single_lines()
    ensures
        is_quiet(PS_RULE@) && is_one_line(PS_RULE@),
        is_quiet(PS_DIVIDER@) && is_one_line(PS_DIVIDER@),
        is_quiet(FOLDER_GAP@) && is_one_line(FOLDER_GAP@),
        is_quiet(GRANT_RULES@) && is_one_line(GRANT_RULES@),
        is_quiet(ORPHAN_RULES@) && is_one_line(ORPHAN_RULES@),
        is_quiet("#"@) && is_one_line("#"@),
        is_quiet(""@) && is_one_line(""@),
{
    lemma_empty_line();
    assert(is_quiet(PS_RULE@) && is_one_line(PS_RULE@)) by {
        reveal_strlit("# ══════════════════════════════════════════════════════════════════════════════");
        lemma_opens(PS_RULE@, 0);
    }
    assert(is_quiet(PS_DIVIDER@) && is_one_line(PS_DIVIDER@)) by {
        reveal_strlit("# ──────────────────────────────────────────────────────────────────────────────");
        lemma_opens(PS_DIVIDER@, 0);
    }
    assert(is_quiet(FOLDER_GAP@) && is_one_line(FOLDER_GAP@)) by {
        reveal_strlit("Write-Host \"│\" -ForegroundColor Red");
        lemma_opens(FOLDER_GAP@, 0);
    }
    assert(is_quiet(GRANT_RULES@) && is_one_line(GRANT_RULES@)) by {
        reveal_strlit("            $rulesToRemove = $acl.Access | Where-Object {");
        lemma_opens(GRANT_RULES@, 12);
    }
    assert(is_quiet(ORPHAN_RULES@) && is_one_line(ORPHAN_RULES@)) by {
        reveal_strlit("            $orphanRules = $acl.Access | Where-Object {");
        lemma_opens(ORPHAN_RULES@, 12);
    }
    assert(is_quiet("#"@) && is_one_line("#"@)) by {
        reveal_strlit("#");
        lemma_opens("#"@, 0);
    }
}

// ---------------------------------------------------------------------------
// Lines with fields
// ---------------------------------------------------------------------------

pub proof fn lemma_header_templates()
    ensures
        is_plain(HEADER_ROOT@),
        is_plain(HEADER_TOTAL@),
        is_plain(HEADER_ACTIONABLE@),
        is_plain(HEADER_TIME@),
        is_plain(HEADER_VERSION@),
{
    assert(starts_quietly(HEADER_ROOT@[0]@) && is_one_line(HEADER_ROOT@[0]@)) by {
        reveal_strlit("#  Scan root:        ");
        assert(opens(HEADER_ROOT@[0]@, 0));
    }
    assert(is_one_line(HEADER_ROOT@[1]@)) by {
        reveal_strlit("");
    }
    assert(starts_quietly(HEADER_TOTAL@[0]@) && is_one_line(HEADER_TOTAL@[0]@)) by {
        reveal_strlit("#  Total findings:   ");
        assert(opens(HEADER_TOTAL@[0]@, 0));
    }
    assert(is_one_line(HEADER_TOTAL@[1]@)) by {
        reveal_strlit("");
    }
    assert(starts_quietly(HEADER_ACTIONABLE@[0]@) && is_one_line(HEADER_ACTIONABLE@[0]@)) by {
        reveal_strlit("#  Actionable fixes: ");
        assert(opens(HEADER_ACTIONABLE@[0]@, 0));
    }
    assert(is_one_line(HEADER_ACTIONABLE@[1]@)) by {
        reveal_strlit("");
    }
    assert(starts_quietly(HEADER_TIME@[0]@) && is_one_line(HEADER_TIME@[0]@)) by {
        reveal_strlit("#  Generated:        ");
        assert(opens(HEADER_TIME@[0]@, 0));
    }
    assert(is_one_line(HEADER_TIME@[1]@)) by {
        reveal_strlit("");
    }
    assert(starts_quietly(HEADER_VERSION@[0]@) && is_one_line(HEADER_VERSION@[0]@)) by {
        reveal_strlit("#  Generator:        FolSec Auditor v");
        assert(opens(HEADER_VERSION@[0]@, 0));
    }
    assert(is_one_line(HEADER_VERSION@[1]@)) by {
        reveal_strlit("");
    }
}

pub proof fn lemma_banner_templates()
    ensures
        is_plain(BANNER_ROOT@),
        is_plain(BANNER_TOTAL@),
        is_plain(BANNER_ACTIONABLE@),
{
    assert(starts_quietly(BANNER_ROOT@[0]@) && is_one_line(BANNER_ROOT@[0]@)) by {
        reveal_strlit("Write-Host \"  Scan Root:        ");
        assert(opens(BANNER_ROOT@[0]@, 0));
    }
    assert(is_one_line(BANNER_ROOT@[1]@)) by {
        reveal_strlit("\" -ForegroundColor Gray");
    }
    assert(starts_quietly(BANNER_TOTAL@[0]@) && is_one_line(BANNER_TOTAL@[0]@)) by {
        reveal_strlit("Write-Host \"  Total Findings:   ");
        assert(opens(BANNER_TOTAL@[0]@, 0));
    }
    assert(is_one_line(BANNER_TOTAL@[1]@)) by {
        reveal_strlit("\" -ForegroundColor Gray");
    }
    assert(starts_quietly(BANNER_ACTIONABLE@[0]@) && is_one_line(BANNER_ACTIONABLE@[0]@)) by {
        reveal_strlit("Write-Host \"  Actionable Fixes: ");
        assert(opens(BANNER_ACTIONABLE@[0]@, 0));
    }
    assert(is_one_line(BANNER_ACTIONABLE@[1]@)) by {
        reveal_strlit("\" -ForegroundColor Gray");
    }
}

pub proof fn lemma_folder_templates()
    ensures
        is_plain(FOLDER_RANK@),
        is_plain(FOLDER_BAR@),
        is_plain(FOLDER_PATH@),
{
    assert(starts_quietly(FOLDER_RANK@[0]@) && is_one_line(FOLDER_RANK@[0]@)) by {
        reveal_strlit("Write-Host \"│  #");
        assert(opens(FOLDER_RANK@[0]@, 0));
    }
    assert(is_one_line(FOLDER_RANK@[1]@)) by {
        reveal_strlit(" [Score: ");
    }
    assert(is_one_line(FOLDER_RANK@[2]@)) by {
        reveal_strlit("] (");
    }
    assert(is_one_line(FOLDER_RANK@[3]@)) by {
        reveal_strlit(" finding(s))\" -ForegroundColor White");
    }
    assert(starts_quietly(FOLDER_BAR@[0]@) && is_one_line(FOLDER_BAR@[0]@)) by {
        reveal_strlit("Write-Host \"│     ");
        assert(opens(FOLDER_BAR@[0]@, 0));
    }
    assert(is_one_line(FOLDER_BAR@[1]@)) by {
        reveal_strlit("\" -ForegroundColor ");
    }
    assert(is_one_line(FOLDER_BAR@[2]@)) by {
        reveal_strlit("");
    }
    assert(starts_quietly(FOLDER_PATH@[0]@) && is_one_line(FOLDER_PATH@[0]@)) by {
        reveal_strlit("Write-Host \"│     ");
        assert(opens(FOLDER_PATH@[0]@, 0));
    }
    assert(is_one_line(FOLDER_PATH@[1]@)) by {
        reveal_strlit("\" -ForegroundColor Gray");
    }
}

pub proof fn lemma_block_templates()
    ensures
        is_plain(BLOCK_TITLE@),
        is_plain(BLOCK_PATH@),
        is_plain(ACTION_COUNT@),
        is_plain(TARGET_PATH@),
        is_plain(COMMIT_DONE@),
        is_plain(DRY_TITLE@),
        is_plain(SKIPPED@),
{
    assert(starts_quietly(BLOCK_TITLE@[0]@) && is_one_line(BLOCK_TITLE@[0]@)) by {
        reveal_strlit("# PATH BLOCK #");
        assert(opens(BLOCK_TITLE@[0]@, 0));
    }
    assert(is_one_line(BLOCK_TITLE@[1]@)) by {
        reveal_strlit(" — ");
    }
    assert(is_one_line(BLOCK_TITLE@[2]@)) by {
        reveal_strlit(" finding(s) on this path");
    }
    assert(starts_quietly(BLOCK_PATH@[0]@) && is_one_line(BLOCK_PATH@[0]@)) by {
        reveal_strlit("# Path: ");
        assert(opens(BLOCK_PATH@[0]@, 0));
    }
    assert(is_one_line(BLOCK_PATH@[1]@)) by {
        reveal_strlit("");
    }
    assert(starts_quietly(ACTION_COUNT@[0]@) && is_one_line(ACTION_COUNT@[0]@)) by {
        reveal_strlit("$ActionCount += ");
        assert(opens(ACTION_COUNT@[0]@, 0));
    }
    assert(is_one_line(ACTION_COUNT@[1]@)) by {
        reveal_strlit("");
    }
    assert(starts_quietly(TARGET_PATH@[0]@) && is_one_line(TARGET_PATH@[0]@)) by {
        reveal_strlit("$targetPath = '");
        assert(opens(TARGET_PATH@[0]@, 0));
    }
    assert(is_one_line(TARGET_PATH@[1]@)) by {
        reveal_strlit("'");
    }
    assert(starts_quietly(COMMIT_DONE@[0]@) && is_one_line(COMMIT_DONE@[0]@)) by {
        reveal_strlit("                Write-Host \"  [APPLIED] All ");
        assert(opens(COMMIT_DONE@[0]@, 16));
    }
    assert(is_one_line(COMMIT_DONE@[1]@)) by {
        reveal_strlit(" sub-actions applied on: $targetPath\" -ForegroundColor Green");
    }
    assert(starts_quietly(DRY_TITLE@[0]@) && is_one_line(DRY_TITLE@[0]@)) by {
        reveal_strlit("        Write-Host \"[DRY-RUN BLOCK #");
        assert(opens(DRY_TITLE@[0]@, 8));
    }
    assert(is_one_line(DRY_TITLE@[1]@)) by {
        reveal_strlit("] Path: $targetPath (");
    }
    assert(is_one_line(DRY_TITLE@[2]@)) by {
        reveal_strlit(" action(s))\" -ForegroundColor Cyan");
    }
    assert(starts_quietly(SKIPPED@[0]@) && is_one_line(SKIPPED@[0]@)) by {
        reveal_strlit("    Write-Host \"  [SKIPPED BLOCK #");
        assert(opens(SKIPPED@[0]@, 4));
    }
    assert(is_one_line(SKIPPED@[1]@)) by {
        reveal_strlit("] Path not found: $targetPath\" -ForegroundColor DarkGray");
    }
}

pub proof fn lemma_note_templates()
    ensures
        is_plain(GRANT_NOTE@),
        is_plain(BREAK_NOTE@),
        is_plain(ORPHAN_NOTE@),
{
    assert(starts_quietly(GRANT_NOTE@[0]@) && is_one_line(GRANT_NOTE@[0]@)) by {
        reveal_strlit("#   ");
        assert(opens(GRANT_NOTE@[0]@, 0));
    }
    assert(is_one_line(GRANT_NOTE@[1]@)) by {
        reveal_strlit(". [");
    }
    assert(is_one_line(GRANT_NOTE@[2]@)) by {
        reveal_strlit("] OVER-PERMISSIVE ACE: '");
    }
    assert(is_one_line(GRANT_NOTE@[3]@)) by {
        reveal_strlit("' with ");
    }
    assert(is_one_line(GRANT_NOTE@[4]@)) by {
        reveal_strlit(" (0x");
    }
    assert(is_one_line(GRANT_NOTE@[5]@)) by {
        reveal_strlit(")");
    }
    assert(starts_quietly(BREAK_NOTE@[0]@) && is_one_line(BREAK_NOTE@[0]@)) by {
        reveal_strlit("#   ");
        assert(opens(BREAK_NOTE@[0]@, 0));
    }
    assert(is_one_line(BREAK_NOTE@[1]@)) by {
        reveal_strlit(". [");
    }
    assert(is_one_line(BREAK_NOTE@[2]@)) by {
        reveal_strlit("] INHERITANCE BREAK (had_protected_copy=");
    }
    assert(is_one_line(BREAK_NOTE@[3]@)) by {
        reveal_strlit(")");
    }
    assert(starts_quietly(ORPHAN_NOTE@[0]@) && is_one_line(ORPHAN_NOTE@[0]@)) by {
        reveal_strlit("#   ");
        assert(opens(ORPHAN_NOTE@[0]@, 0));
    }
    assert(is_one_line(ORPHAN_NOTE@[1]@)) by {
        reveal_strlit(". [");
    }
    assert(is_one_line(ORPHAN_NOTE@[2]@)) by {
        reveal_strlit("] ORPHANED SID: ");
    }
    assert(is_one_line(ORPHAN_NOTE@[3]@)) by {
        reveal_strlit("");
    }
}

pub proof fn lemma_action_templates()
    ensures
        is_plain(GRANT_ACTION@),
        is_plain(GRANT_MATCH@),
        is_plain(GRANT_DONE@),
        is_plain(BREAK_ACTION@),
        is_plain(BREAK_DONE@),
        is_plain(ORPHAN_ACTION@),
        is_plain(ORPHAN_SID@),
        is_plain(ORPHAN_MATCH@),
        is_plain(ORPHAN_DONE@),
{
    assert(starts_quietly(GRANT_ACTION@[0]@) && is_one_line(GRANT_ACTION@[0]@)) by {
        reveal_strlit("            # Sub-action ");
        assert(opens(GRANT_ACTION@[0]@, 12));
    }
    assert(is_one_line(GRANT_ACTION@[1]@)) by {
        reveal_strlit(": Remove over-permissive ACE for '");
    }
    assert(is_one_line(GRANT_ACTION@[2]@)) by {
        reveal_strlit("' (");
    }
    assert(is_one_line(GRANT_ACTION@[3]@)) by {
        reveal_strlit(", 0x");
    }
    assert(is_one_line(GRANT_ACTION@[4]@)) by {
        reveal_strlit(")");
    }
    assert(starts_quietly(GRANT_MATCH@[0]@) && is_one_line(GRANT_MATCH@[0]@)) by {
        reveal_strlit("                $_.IdentityReference.Value -eq '");
        assert(opens(GRANT_MATCH@[0]@, 16));
    }
    assert(is_one_line(GRANT_MATCH@[1]@)) by {
        reveal_strlit("' -and $_.AccessControlType -eq 'Allow'");
    }
    assert(starts_quietly(GRANT_DONE@[0]@) && is_one_line(GRANT_DONE@[0]@)) by {
        reveal_strlit("            Write-Host \"    [SUB-ACTION ");
        assert(opens(GRANT_DONE@[0]@, 12));
    }
    assert(is_one_line(GRANT_DONE@[1]@)) by {
        reveal_strlit("] Removed ACE for '");
    }
    assert(is_one_line(GRANT_DONE@[2]@)) by {
        reveal_strlit("' (");
    }
    assert(is_one_line(GRANT_DONE@[3]@)) by {
        reveal_strlit(")\" -ForegroundColor Green");
    }
    assert(starts_quietly(BREAK_ACTION@[0]@) && is_one_line(BREAK_ACTION@[0]@)) by {
        reveal_strlit("            # Sub-action ");
        assert(opens(BREAK_ACTION@[0]@, 12));
    }
    assert(is_one_line(BREAK_ACTION@[1]@)) by {
        reveal_strlit(": Re-enable inheritance");
    }
    assert(starts_quietly(BREAK_DONE@[0]@) && is_one_line(BREAK_DONE@[0]@)) by {
        reveal_strlit("            Write-Host \"    [SUB-ACTION ");
        assert(opens(BREAK_DONE@[0]@, 12));
    }
    assert(is_one_line(BREAK_DONE@[1]@)) by {
        reveal_strlit("] Re-enabled inheritance\" -ForegroundColor Green");
    }
    assert(starts_quietly(ORPHAN_ACTION@[0]@) && is_one_line(ORPHAN_ACTION@[0]@)) by {
        reveal_strlit("            # Sub-action ");
        assert(opens(ORPHAN_ACTION@[0]@, 12));
    }
    assert(is_one_line(ORPHAN_ACTION@[1]@)) by {
        reveal_strlit(": Remove orphaned SID '");
    }
    assert(is_one_line(ORPHAN_ACTION@[2]@)) by {
        reveal_strlit("'");
    }
    assert(starts_quietly(ORPHAN_SID@[0]@) && is_one_line(ORPHAN_SID@[0]@)) by {
        reveal_strlit("            $orphanSid");
        assert(opens(ORPHAN_SID@[0]@, 12));
    }
    assert(is_one_line(ORPHAN_SID@[1]@)) by {
        reveal_strlit(" = New-Object System.Security.Principal.SecurityIdentifier('");
    }
    assert(is_one_line(ORPHAN_SID@[2]@)) by {
        reveal_strlit("')");
    }
    assert(starts_quietly(ORPHAN_MATCH@[0]@) && is_one_line(ORPHAN_MATCH@[0]@)) by {
        reveal_strlit("                $_.IdentityReference.Value -eq $orphanSid");
        assert(opens(ORPHAN_MATCH@[0]@, 16));
    }
    assert(is_one_line(ORPHAN_MATCH@[1]@)) by {
        reveal_strlit(".Value");
    }
    assert(starts_quietly(ORPHAN_DONE@[0]@) && is_one_line(ORPHAN_DONE@[0]@)) by {
        reveal_strlit("            Write-Host \"    [SUB-ACTION ");
        assert(opens(ORPHAN_DONE@[0]@, 12));
    }
    assert(is_one_line(ORPHAN_DONE@[1]@)) by {
        reveal_strlit("] Removed orphaned SID '");
    }
    assert(is_one_line(ORPHAN_DONE@[2]@)) by {
        reveal_strlit("'\" -ForegroundColor Green");
    }
}

pub proof fn lemma_preview_templates()
    ensures
        is_plain(GRANT_DRY@),
        is_plain(BREAK_DRY@),
        is_plain(ORPHAN_DRY@),
{
    assert(starts_quietly(GRANT_DRY@[0]@) && is_one_line(GRANT_DRY@[0]@)) by {
        reveal_strlit("        Write-Host \"  {\"");
        assert(opens(GRANT_DRY@[0]@, 8));
    }
    assert(is_one_line(GRANT_DRY@[1]@)) by {
        reveal_strlit("\"}.  Would REMOVE explicit Allow ACE for '");
    }
    assert(is_one_line(GRANT_DRY@[2]@)) by {
        reveal_strlit("' — ");
    }
    assert(is_one_line(GRANT_DRY@[3]@)) by {
        reveal_strlit(" (0x");
    }
    assert(is_one_line(GRANT_DRY@[4]@)) by {
        reveal_strlit(")\" -ForegroundColor Yellow");
    }
    assert(starts_quietly(BREAK_DRY@[0]@) && is_one_line(BREAK_DRY@[0]@)) by {
        reveal_strlit("        Write-Host \"  {\"");
        assert(opens(BREAK_DRY@[0]@, 8));
    }
    assert(is_one_line(BREAK_DRY@[1]@)) by {
        reveal_strlit("\"}.  Would RE-ENABLE INHERITANCE (had_protected_copy=");
    }
    assert(is_one_line(BREAK_DRY@[2]@)) by {
        reveal_strlit(")\" -ForegroundColor Magenta");
    }
    assert(starts_quietly(ORPHAN_DRY@[0]@) && is_one_line(ORPHAN_DRY@[0]@)) by {
        reveal_strlit("        Write-Host \"  {\"");
        assert(opens(ORPHAN_DRY@[0]@, 8));
    }
    assert(is_one_line(ORPHAN_DRY@[1]@)) by {
        reveal_strlit("\"}.  Would REMOVE orphaned SID: ");
    }
    assert(is_one_line(ORPHAN_DRY@[2]@)) by {
        reveal_strlit("\" -ForegroundColor DarkYellow");
    }
}

pub proof fn lemma_triage_templates()
    ensures
        is_plain(TRIAGE_TITLE@),
        is_plain(TRIAGE_PATH@),
        is_plain(TRIAGE_RISK@),
        is_plain(TRIAGE_GUIDANCE@),
{
    assert(starts_quietly(TRIAGE_TITLE@[0]@) && is_one_line(TRIAGE_TITLE@[0]@)) by {
        reveal_strlit("# INFO (Finding #");
        assert(opens(TRIAGE_TITLE@[0]@, 0));
    }
    assert(is_one_line(TRIAGE_TITLE@[1]@)) by {
        reveal_strlit(") — MANUAL TRIAGE REQUIRED [");
    }
    assert(is_one_line(TRIAGE_TITLE@[2]@)) by {
        reveal_strlit("]");
    }
    assert(starts_quietly(TRIAGE_PATH@[0]@) && is_one_line(TRIAGE_PATH@[0]@)) by {
        reveal_strlit("# Path:     ");
        assert(opens(TRIAGE_PATH@[0]@, 0));
    }
    assert(is_one_line(TRIAGE_PATH@[1]@)) by {
        reveal_strlit("");
    }
    assert(starts_quietly(TRIAGE_RISK@[0]@) && is_one_line(TRIAGE_RISK@[0]@)) by {
        reveal_strlit("# Risk:     ");
        assert(opens(TRIAGE_RISK@[0]@, 0));
    }
    assert(is_one_line(TRIAGE_RISK@[1]@)) by {
        reveal_strlit("");
    }
    assert(starts_quietly(TRIAGE_GUIDANCE@[0]@) && is_one_line(TRIAGE_GUIDANCE@[0]@)) by {
        reveal_strlit("# Guidance: ");
        assert(opens(TRIAGE_GUIDANCE@[0]@, 0));
    }
    assert(is_one_line(TRIAGE_GUIDANCE@[1]@)) by {
        reveal_strlit("");
    }
}

pub proof fn lemma_footer_templates()
    ensures
        is_plain(FOOTER_TOTAL@),
{
    assert(starts_quietly(FOOTER_TOTAL@[0]@) && is_one_line(FOOTER_TOTAL@[0]@)) by {
        reveal_strlit("Write-Host \"  Total actions:    ");
        assert(opens(FOOTER_TOTAL@[0]@, 0));
    }
    assert(is_one_line(FOOTER_TOTAL@[1]@)) by {
        reveal_strlit(" (actionable findings)\" -ForegroundColor Gray");
    }
}

/// The guidance of a finding stands on one line.
pub proof fn lemma_guidance()
    ensures
        is_one_line(NULL_DACL_GUIDANCE@),
        forall|ms: Seq<char>| is_one_line(ms) ==> is_one_line(#[trigger] filled1(ANOMALY_GUIDANCE@, ms)),
{
    reveal_strlit("NULL DACL requires manual triage — apply a restrictive explicit DACL.");
    reveal_strlit("SIEM visibility gap detected (");
    reveal_strlit("ms cycling). Configure audit policies to detect rapid ACL changes.");
    assert(is_one_line(NULL_DACL_GUIDANCE@));
    let (a, b) = (ANOMALY_GUIDANCE@[0]@, ANOMALY_GUIDANCE@[1]@);
    assert(is_one_line(a));
    assert(is_one_line(b));
    assert forall|ms: Seq<char>| is_one_line(ms) implies is_one_line(
        #[trigger] filled1(ANOMALY_GUIDANCE@, ms),
    ) by {
        lemma_one_line_adds(a, ms);
        lemma_one_line_adds(a + ms, b);
    }
}

} // verus!
