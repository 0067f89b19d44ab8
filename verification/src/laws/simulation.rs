//! The anomaly simulation.

use crate::errors::AuditorErrorView;
use crate::laws::texts::{decimal_reads_back, number_of, padding_stands_in_front};
use crate::scanner::risk::{RiskKindView, Severity};
use crate::simulator::{
    action_at, after_outcome, after_outcomes, anomaly_view, dummy_name, failures_text, first_failure_text, AclState, Action, Outcome,
    SimulationResult, SimulationView,
};
use crate::text::{decimal, padded};
use core::time::Duration;
use vstd::prelude::*;

verus! {

/// The actions of a simulation, each with its place: the directory, fifty files, fifty
/// changes of each file, which lock it in even cycles and open it in odd ones, the removal
/// of the fifty files and of the directory, and nothing behind that.
pub proof fn actions_have_their_places(done: nat, file: nat, cycle: nat)
    ensures
        action_at(0) == Action::CreateDirectory,
        1 <= done <= 50 ==> action_at(done) == (Action::CreateFile { index: (done - 1) as u32 }),
        file < 50 && cycle < 50 ==> action_at(51 + 50 * file + cycle) == (Action::ChangeAcl {
            file: file as u32,
            cycle: cycle as u32,
            state: if cycle % 2 == 0 {
                AclState::Restrictive
            } else {
                AclState::Permissive
            },
        }),
        2551 <= done <= 2600 ==> action_at(done) == (Action::RemoveFile {
            index: (done - 2551) as u32,
        }),
        action_at(2601) == Action::RemoveDirectory,
        done >= 2602 ==> action_at(done) == Action::Finished,
{
    let n = 50 * file + cycle;
    if file < 50 && cycle < 50 {
        assert(n / 50 == file && n % 50 == cycle);
    }
}

/// An action that was done brings the simulation one action further; a change with a
/// code other than zero counts as a failure and nothing else does.
pub proof fn done_actions_are_counted(s: SimulationView, code: u32)
    requires
        s.windows,
    ensures
        after_outcome(s, Outcome::Done(code)) == Ok::<_, AuditorErrorView>(
            SimulationView {
                windows: true,
                done: if s.done >= 2602 {
                    s.done
                } else {
                    s.done + 1
                },
                failures: if 51 <= s.done <= 2550 && code != 0 {
                    s.failures + 1
                } else {
                    s.failures
                },
                cleaned_up: s.cleaned_up || s.done == 2601,
            },
        ),
{
    let n = s.done - 51;
    if 51 <= s.done <= 2550 {
        actions_have_their_places(s.done, (n / 50) as nat, (n % 50) as nat);
    } else {
        actions_have_their_places(s.done, 0, 0);
    }
}

/// An action that failed ends the simulation with its error where it belongs to the setup
/// or the changes; where it belongs to the removal, the simulation goes on and does not
/// count as cleaned up on its account.
pub proof fn failed_actions_end_the_setup(s: SimulationView, outcome: Outcome)
    requires
        s.windows,
        outcome is Failed,
    ensures
        s.done <= 2550 ==> after_outcome(s, outcome) == Err::<SimulationView, _>(outcome->Failed_0@),
        s.done > 2550 ==> after_outcome(s, outcome) == Ok::<_, AuditorErrorView>(
            SimulationView {
                done: if s.done >= 2602 {
                    s.done
                } else {
                    s.done + 1
                },
                ..s
            },
        ),
{
    let n = s.done - 51;
    if 51 <= s.done <= 2550 {
        actions_have_their_places(s.done, (n / 50) as nat, (n % 50) as nat);
    } else {
        actions_have_their_places(s.done, 0, 0);
    }
}

/// Elsewhere the simulation ends with an error of its own when the files are there.
pub proof fn other_systems_stop_before_the_changes(s: SimulationView, outcome: Outcome)
    requires
        !s.windows,
    ensures
        51 <= s.done <= 2550 ==> after_outcome(s, outcome) == Err::<SimulationView, _>(
            AuditorErrorView::SimulatorSetup(
                "ACL cycling requires Windows (SetNamedSecurityInfoW is Win32-only)"@,
            ),
        ),
        s.done <= 50 && outcome is Failed ==> after_outcome(s, outcome) == Err::<
            SimulationView,
            _,
        >(outcome->Failed_0@),
        s.done <= 50 && outcome is Done ==> after_outcome(s, outcome) == Ok::<_, AuditorErrorView>(
            SimulationView { done: s.done + 1, ..s },
        ),
{
    let n = s.done - 51;
    if 51 <= s.done <= 2550 {
        actions_have_their_places(s.done, (n / 50) as nat, (n % 50) as nat);
    } else {
        actions_have_their_places(s.done, 0, 0);
    }
}

/// Whether an action is possible at all is known before it is tried: only changes are
/// not, and only elsewhere.
pub proof fn what_comes_next(s: SimulationView)
    ensures
        s.windows || s.done <= 50 || s.done >= 2551 ==> s.next() == Some(action_at(s.done)),
        !s.windows && 51 <= s.done <= 2550 ==> s.next() is None,
{
    let n = s.done - 51;
    if 51 <= s.done <= 2550 {
        actions_have_their_places(s.done, (n / 50) as nat, (n % 50) as nat);
    } else {
        actions_have_their_places(s.done, 0, 0);
    }
}

/// A simulation starts with nothing done and takes its outcomes in turn, until an error
/// ends it.
pub proof fn outcomes_are_taken_in_turn(windows: bool, outcomes: Seq<Outcome>, outcome: Outcome)
    ensures
        after_outcomes(windows, Seq::empty()) == Ok::<_, AuditorErrorView>(
            SimulationView { windows, done: 0, failures: 0, cleaned_up: false },
        ),
        after_outcomes(windows, outcomes.push(outcome)) == match after_outcomes(windows, outcomes) {
            Ok(s) => after_outcome(s, outcome),
            Err(e) => Err(e),
        },
{
    assert(outcomes.push(outcome).drop_last() =~= outcomes);
}

/// The finding of a simulation is critical, names the directory and the milliseconds, and
/// says how many changes of how many files there were.
pub proof fn anomalies_are_reported(temp_dir: Seq<char>, ms: u64)
    ensures
        anomaly_view(temp_dir, ms).path == temp_dir,
        anomaly_view(temp_dir, ms).severity == Severity::Critical,
        anomaly_view(temp_dir, ms).risk == (RiskKindView::AnomalySimulated { cycles_in_ms: ms }),
        anomaly_view(temp_dir, ms).description == "FolSec Anomaly Simulator executed "@ + decimal(
            2500,
        ) + " ACL cycles across "@ + decimal(50) + " files in "@ + decimal(ms as nat)
            + "ms using direct Win32 SetNamedSecurityInfoW calls (zero child processes). If your SIEM/EDR did NOT alert during this window, you lack real-time NTFS audit visibility. A real ransomware attack would look identical."@,
        anomaly_view(temp_dir, ms).remediation_hint
            == "Enable Windows Security Audit Policy → 'Audit Object Access' and forward Event IDs 4656/4660/4663/4670 to your SIEM. FolSec provides out-of-the-box detection rules for this pattern."@,
{
}

/// The result of a simulation holds the times that were taken and says whether the
/// directory was removed.
pub proof fn results_hold_the_times(
    r: SimulationResult,
    s: SimulationView,
    temp_dir: Seq<char>,
    elapsed: Duration,
    ms: u128,
)
    requires
        r.is_result(s, temp_dir, elapsed, ms),
    ensures
        r.elapsed == elapsed,
        ms <= u64::MAX ==> r.cycling_elapsed_ms == ms,
        r.finding@ == anomaly_view(temp_dir, r.cycling_elapsed_ms),
        r.cleaned_up == s.cleaned_up,
{
}

/// The name of a dummy file holds its index, in three digits or as many as it takes.
pub proof fn dummy_names_hold_the_index(index: nat)
    ensures
        ({
            let number = padded(decimal(index), 3, '0');
            &&& dummy_name(index) == "folsec_dummy_"@ + number + ".tmp"@
            &&& number.len() >= 3
            &&& number_of(number.skip(number.len() - decimal(index).len())) == index
        }),
{
    padding_stands_in_front(decimal(index), 3, '0');
    decimal_reads_back(index);
}

/// What is said of changes that failed: of the first one the code, the file and the cycle,
/// counted from one, and of all of them their number, if there were any.
pub proof fn failures_are_told(code: u32, path: Seq<char>, cycle: u32, failures: nat)
    ensures
        first_failure_text(code, path, cycle) == "[SIM] SetNamedSecurityInfoW error "@ + decimal(
            code as nat,
        ) + " on '"@ + path + "' cycle "@ + decimal((cycle + 1) as nat) + " (tolerated)."@,
        failures_text(failures) is None <==> failures == 0,
        failures > 0 ==> failures_text(failures) == Some(
            "[SIM] "@ + decimal(failures)
                + " API calls returned errors (all tolerated — simulation continued)."@,
        ),
{
}

} // verus!
