//! The anomaly simulator.
//!
//! The simulation creates dummy files in a directory of its own, changes their
//! access control lists back and forth, and removes them. It shows whether anyone
//! notices: no file is touched but those that it made. This module decides what
//! comes next; the caller does it and says what came of it.

use crate::errors::{AuditorError, AuditorErrorView};
use crate::lines::{fill1, fill3, filled1, filled3};
use crate::scanner::risk::{FindingView, RiskFinding, RiskKind, RiskKindView, Severity};
use crate::text::{decimal, decimal_text, digit, pad_text, padded};
use core::time::Duration;
use vstd::prelude::*;

verus! {

/// The name of the directory of the simulation.
pub const TEMP_DIR_NAME: &'static str = ".tmp_folsec_audit";

/// What a dummy file holds.
pub const DUMMY_CONTENT: &'static str = "FolSec ACL Audit Simulation";

/// How many dummy files are created.
pub const FILE_COUNT: u32 = 50;

/// How often the list of each file is changed.
pub const ACL_CYCLES: u32 = 50;

/// How many changes are made.
pub const CHANGE_COUNT: u32 = 2500;

/// How many actions there are: creating the directory and the files, the changes,
/// and removing the files and the directory.
pub const ACTION_COUNT: u32 = 2602;

/// The name of a dummy file.
pub const DUMMY_NAME: [&'static str; 2] = ["folsec_dummy_", ".tmp"];

/// Why nothing is changed on other systems.
pub const WINDOWS_ONLY: &'static str =
    "ACL cycling requires Windows (SetNamedSecurityInfoW is Win32-only)";

/// What is said of the first change that failed: the code, the file and the cycle.
pub const FIRST_FAILURE: [&'static str; 4] = [
    "[SIM] SetNamedSecurityInfoW error ",
    " on '",
    "' cycle ",
    " (tolerated).",
];

/// What is said of all changes that failed: their number.
pub const ALL_FAILURES: [&'static str; 2] = [
    "[SIM] ",
    " API calls returned errors (all tolerated — simulation continued).",
];

/// The description of the finding: the changes, the files and the milliseconds.
pub const DESCRIPTION: [&'static str; 4] = [
    "FolSec Anomaly Simulator executed ",
    " ACL cycles across ",
    " files in ",
    "ms using direct Win32 SetNamedSecurityInfoW calls (zero child processes). If your SIEM/EDR did NOT alert during this window, you lack real-time NTFS audit visibility. A real ransomware attack would look identical.",
];

/// What the finding asks for.
pub const HINT: &'static str =
    "Enable Windows Security Audit Policy → 'Audit Object Access' and forward Event IDs 4656/4660/4663/4670 to your SIEM. FolSec provides out-of-the-box detection rules for this pattern.";

// ---------------------------------------------------------------------------
// What is done
// ---------------------------------------------------------------------------

/// The access control list of a dummy file.
#[derive(Debug, Clone, Copy, PartialEq, Eq, Structural)]
pub enum AclState {
    /// Full control for the system, and nobody else.
    Restrictive,
    /// Full control for everyone.
    Permissive,
}

/// What comes next in a simulation.
#[derive(Debug, Clone, Copy, PartialEq, Eq, Structural)]
pub enum Action {
    /// The hidden directory is created.
    CreateDirectory,
    /// The dummy file of this index is created.
    CreateFile { index: u32 },
    /// The list of the dummy file of this index is changed.
    ChangeAcl { file: u32, cycle: u32, state: AclState },
    /// The dummy file of this index is removed.
    RemoveFile { index: u32 },
    /// The directory is removed, now that it is empty.
    RemoveDirectory,
    /// Nothing is left to do.
    Finished,
}

/// What came of an action.
#[derive(Debug)]
pub enum Outcome {
    /// It was done, with this code where it was a change: zero is success.
    Done(u32),
    /// It was not done.
    Failed(AuditorError),
}

/// The list that a file has after a cycle: locked in even ones, open in odd ones.
pub open spec fn state_in(cycle: nat) -> AclState {
    if cycle % 2 == 0 {
        AclState::Restrictive
    } else {
        AclState::Permissive
    }
}

/// What comes next when so many actions are done: the directory, then each file,
/// then each cycle of each file in turn, then the removal of each file and of the
/// directory.
pub open spec fn action_at(done: nat) -> Action {
    if done == 0 {
        Action::CreateDirectory
    } else if done <= FILE_COUNT {
        Action::CreateFile { index: (done - 1) as u32 }
    } else if done <= FILE_COUNT + CHANGE_COUNT {
        let n = done - FILE_COUNT - 1;
        Action::ChangeAcl {
            file: (n / ACL_CYCLES as int) as u32,
            cycle: (n % ACL_CYCLES as int) as u32,
            state: state_in((n % ACL_CYCLES as int) as nat),
        }
    } else if done <= FILE_COUNT + CHANGE_COUNT + FILE_COUNT {
        Action::RemoveFile { index: (done - FILE_COUNT - CHANGE_COUNT - 1) as u32 }
    } else if done == FILE_COUNT + CHANGE_COUNT + FILE_COUNT + 1 {
        Action::RemoveDirectory
    } else {
        Action::Finished
    }
}

/// Whether a simulation goes on where an action was not done: a removal that fails
/// is no error.
pub open spec fn may_fail(action: Action) -> bool {
    action is RemoveFile || action is RemoveDirectory || action is Finished
}

/// The name of the dummy file of an index.
pub open spec fn dummy_name(index: nat) -> Seq<char> {
    filled1(DUMMY_NAME@, padded(decimal(index), 3, '0'))
}

/// Writes the name of the dummy file of an index.
pub fn dummy_file_name(index: u32) -> (r: String)
    ensures
        r@ == dummy_name(index as nat),
{
    let number = pad_text(decimal_text(index as u128), 3, '0');
    fill1(DUMMY_NAME.as_slice(), number.as_str())
}

// ---------------------------------------------------------------------------
// The simulation
// ---------------------------------------------------------------------------

/// A simulation that is under way.
pub struct Simulation {
    windows: bool,
    done: u32,
    failures: u32,
    cleaned_up: bool,
}

/// What a [`Simulation`] holds.
pub struct SimulationView {
    /// Whether it runs on Windows.
    pub windows: bool,
    /// How many actions are done.
    pub done: nat,
    /// How many changes failed.
    pub failures: nat,
    /// Whether the directory was removed.
    pub cleaned_up: bool,
}

impl View for Simulation {
    type V = SimulationView;

    closed spec fn view(&self) -> SimulationView {
        SimulationView {
            windows: self.windows,
            done: self.done as nat,
            failures: self.failures as nat,
            cleaned_up: self.cleaned_up,
        }
    }
}

impl SimulationView {
    /// No more changes failed than actions were done, and no more was done than
    /// there is to do. This holds of every simulation.
    pub open spec fn wf(self) -> bool {
        self.failures <= self.done <= ACTION_COUNT
    }

    /// What the simulation does next: on other systems nothing is changed.
    pub open spec fn next(self) -> Option<Action> {
        let action = action_at(self.done);
        if action is ChangeAcl && !self.windows {
            None
        } else {
            Some(action)
        }
    }

    /// The simulation after an action that did not stop it.
    pub open spec fn after(self, code: u32, failed: bool) -> SimulationView {
        let action = action_at(self.done);
        SimulationView {
            done: if action is Finished {
                self.done
            } else {
                self.done + 1
            },
            failures: if action is ChangeAcl && code != 0 {
                self.failures + 1
            } else {
                self.failures
            },
            cleaned_up: self.cleaned_up || (action is RemoveDirectory && !failed),
            ..self
        }
    }
}

/// The error on systems on which nothing is changed.
pub open spec fn windows_only() -> AuditorErrorView {
    AuditorErrorView::SimulatorSetup(WINDOWS_ONLY@)
}

impl Simulation {
    #[verifier::type_invariant]
    spec fn is_well_formed(self) -> bool {
        self@.wf()
    }

    /// A simulation of which nothing is done yet.
    pub fn new(windows: bool) -> (r: Self)
        ensures
            r@ == fresh_simulation(windows),
    {
        Simulation { windows, done: 0, failures: 0, cleaned_up: false }
    }

    /// What comes next.
    pub fn next_action(&self) -> (r: Result<Action, AuditorError>)
        ensures
            match r {
                Ok(action) => self@.next() == Some(action),
                Err(e) => self@.next() is None && e@ == windows_only(),
            },
    {
        proof {
            use_type_invariant(self);
        }
        let done: u32 = self.done;
        if done == 0 {
            Ok(Action::CreateDirectory)
        } else if done <= FILE_COUNT {
            Ok(Action::CreateFile { index: done - 1 })
        } else if done <= FILE_COUNT + CHANGE_COUNT {
            if !self.windows {
                return Err(AuditorError::SimulatorSetup(WINDOWS_ONLY.to_owned()));
            }
            let n: u32 = done - FILE_COUNT - 1;
            let cycle: u32 = n % ACL_CYCLES;
            let state = if cycle % 2 == 0 {
                AclState::Restrictive
            } else {
                AclState::Permissive
            };
            Ok(Action::ChangeAcl { file: n / ACL_CYCLES, cycle, state })
        } else if done <= FILE_COUNT + CHANGE_COUNT + FILE_COUNT {
            Ok(Action::RemoveFile { index: done - FILE_COUNT - CHANGE_COUNT - 1 })
        } else if done == FILE_COUNT + CHANGE_COUNT + FILE_COUNT + 1 {
            Ok(Action::RemoveDirectory)
        } else {
            Ok(Action::Finished)
        }
    }

    /// Goes on after an action. What fails before the removal ends the simulation;
    /// a change that has an error code does not, and neither does a removal that
    /// fails. Says whether this was the first change with an error code.
    pub fn advance(&mut self, outcome: Outcome) -> (r: Result<bool, AuditorError>)
        ensures
            match (outcome, r) {
                (Outcome::Done(code), Ok(first)) => final(self)@ == old(self)@.after(code, false)
                    && first == (final(self)@.failures == 1 && old(self)@.failures == 0),
                (Outcome::Done(_), Err(_)) => false,
                (Outcome::Failed(error), Ok(first)) => may_fail(action_at(old(self)@.done))
                    && final(self)@ == old(self)@.after(0, true) && !first,
                (Outcome::Failed(error), Err(e)) => !may_fail(action_at(old(self)@.done)) && e
                    == error && final(self)@ == old(self)@,
            },
    {
        proof {
            use_type_invariant(&*self);
        }
        let changing = self.done > FILE_COUNT && self.done <= FILE_COUNT + CHANGE_COUNT;
        let removing = self.done > FILE_COUNT + CHANGE_COUNT;
        let last = self.done == FILE_COUNT + CHANGE_COUNT + FILE_COUNT + 1;
        let finished = self.done == ACTION_COUNT;
        match outcome {
            Outcome::Done(code) => {
                let failed = changing && code != 0;
                let first = failed && self.failures == 0;
                if !finished {
                    self.done = self.done + 1;
                }
                if failed {
                    self.failures = self.failures + 1;
                }
                if last {
                    self.cleaned_up = true;
                }
                Ok(first)
            },
            Outcome::Failed(error) => {
                if finished {
                    Ok(false)
                } else if removing {
                    self.done = self.done + 1;
                    Ok(false)
                } else {
                    Err(error)
                }
            },
        }
    }

    /// What is said of all changes that failed: nothing, where none did.
    pub fn failures_note(&self) -> (r: Option<String>)
        ensures
            match r {
                Some(text) => failures_text(self@.failures) == Some(text@),
                None => failures_text(self@.failures) is None,
            },
    {
        if self.failures > 0 {
            let count = decimal_text(self.failures as u128);
            Some(fill1(ALL_FAILURES.as_slice(), count.as_str()))
        } else {
            None
        }
    }

    /// Whether nothing is left to do.
    pub fn is_finished(&self) -> (r: bool)
        ensures
            r == (self@.done == ACTION_COUNT),
            self@.wf(),
    {
        proof {
            use_type_invariant(self);
        }
        self.done == ACTION_COUNT
    }

    /// What came of a simulation that is finished.
    pub fn result(
        &self,
        temp_dir: String,
        elapsed: Duration,
        cycling_ms: u128,
    ) -> (r: SimulationResult)
        requires
            self@.done == ACTION_COUNT,
        ensures
            r.is_result(self@, temp_dir@, elapsed, cycling_ms),
    {
        let cycling_elapsed_ms: u64 = (cycling_ms % 0x1_0000_0000_0000_0000) as u64;
        let finding = anomaly_finding(temp_dir, cycling_elapsed_ms);
        SimulationResult { elapsed, cycling_elapsed_ms, finding, cleaned_up: self.cleaned_up }
    }
}

/// The start of a simulation.
pub open spec fn fresh_simulation(windows: bool) -> SimulationView {
    SimulationView { windows, done: 0, failures: 0, cleaned_up: false }
}

/// What a simulation comes to by one outcome: where it stands, or the error that
/// ends it.
pub open spec fn after_outcome(s: SimulationView, outcome: Outcome) -> Result<
    SimulationView,
    AuditorErrorView,
> {
    if s.next() is None {
        Err(windows_only())
    } else {
        match outcome {
            Outcome::Done(code) => Ok(s.after(code, false)),
            Outcome::Failed(error) => if may_fail(action_at(s.done)) {
                Ok(s.after(0, true))
            } else {
                Err(error@)
            },
        }
    }
}

/// What a simulation comes to by some outcomes.
pub open spec fn after_outcomes(windows: bool, outcomes: Seq<Outcome>) -> Result<
    SimulationView,
    AuditorErrorView,
>
    decreases outcomes.len(),
{
    if outcomes.len() == 0 {
        Ok(fresh_simulation(windows))
    } else {
        match after_outcomes(windows, outcomes.drop_last()) {
            Ok(s) => after_outcome(s, outcomes.last()),
            Err(e) => Err(e),
        }
    }
}

/// Runs a simulation over the outcomes of its actions: the result where it is
/// finished, nothing where it is not, and the error where one ended it.
pub fn run_simulation(
    windows: bool,
    outcomes: Vec<Outcome>,
    temp_dir: String,
    elapsed: Duration,
    cycling_ms: u128,
) -> (r: Result<Option<SimulationResult>, AuditorError>)
    ensures
        match after_outcomes(windows, outcomes@) {
            Ok(s) => match r {
                Ok(Some(result)) => s.done == ACTION_COUNT && result.is_result(
                    s,
                    temp_dir@,
                    elapsed,
                    cycling_ms,
                ),
                Ok(None) => s.done < ACTION_COUNT,
                Err(_) => false,
            },
            Err(error) => r matches Err(e) && e@ == error,
        },
{
    let mut simulation = Simulation::new(windows);
    let ghost all = outcomes@;
    assert(all.take(0) =~= Seq::<Outcome>::empty());
    for outcome in it: outcomes
        invariant
            it.seq() == all,
            after_outcomes(windows, all.take(it.index() as int)) == Ok::<_, AuditorErrorView>(
                simulation@,
            ),
    {
        let ghost k = it.index() as int;
        assert(all.take(k + 1).drop_last() =~= all.take(k));
        assert(all.take(k + 1).last() == outcome);
        if let Err(e) = simulation.next_action() {
            proof {
                lemma_error_stays(windows, all, k + 1);
            }
            return Err(e);
        }
        if let Err(e) = simulation.advance(outcome) {
            proof {
                lemma_error_stays(windows, all, k + 1);
            }
            return Err(e);
        }
    }
    assert(all.take(all.len() as int) =~= all);
    if simulation.is_finished() {
        Ok(Some(simulation.result(temp_dir, elapsed, cycling_ms)))
    } else {
        Ok(None)
    }
}

proof fn lemma_error_stays(windows: bool, outcomes: Seq<Outcome>, k: int)
    requires
        0 <= k <= outcomes.len(),
        after_outcomes(windows, outcomes.take(k)) is Err,
    ensures
        after_outcomes(windows, outcomes) == after_outcomes(windows, outcomes.take(k)),
    decreases outcomes.len(),
{
    if k == outcomes.len() {
        assert(outcomes.take(k) =~= outcomes);
    } else {
        assert(outcomes.drop_last().take(k) =~= outcomes.take(k));
        lemma_error_stays(windows, outcomes.drop_last(), k);
    }
}

/// What is said of so many changes that failed: nothing, where none did.
pub open spec fn failures_text(failures: nat) -> Option<Seq<char>> {
    if failures > 0 {
        Some(filled1(ALL_FAILURES@, decimal(failures)))
    } else {
        None
    }
}

/// What is said of the first change that failed, with cycles counted from one.
pub open spec fn first_failure_text(code: u32, path: Seq<char>, cycle: u32) -> Seq<char> {
    filled3(FIRST_FAILURE@, decimal(code as nat), path, decimal((cycle + 1) as nat))
}

/// Writes what is said of the first change that failed. Cycles are counted from
/// one.
pub fn first_failure_note(code: u32, path: &str, cycle: u32) -> (r: String)
    ensures
        r@ == first_failure_text(code, path@, cycle),
{
    let number = decimal_text(code as u128);
    let turn = decimal_text(cycle as u128 + 1);
    fill3(FIRST_FAILURE.as_slice(), number.as_str(), path, turn.as_str())
}

// ---------------------------------------------------------------------------
// The result
// ---------------------------------------------------------------------------

/// What came of a simulation.
#[derive(Debug)]
pub struct SimulationResult {
    /// How long the whole simulation took.
    pub elapsed: Duration,
    /// How many milliseconds the changes took.
    pub cycling_elapsed_ms: u64,
    /// The finding for the report.
    pub finding: RiskFinding,
    /// Whether the directory was removed.
    pub cleaned_up: bool,
}

impl SimulationResult {
    /// Whether this came of a simulation with this directory and these times.
    pub open spec fn is_result(
        self,
        s: SimulationView,
        temp_dir: Seq<char>,
        elapsed: Duration,
        cycling_ms: u128,
    ) -> bool {
        &&& self.elapsed == elapsed
        &&& self.cycling_elapsed_ms == cycling_ms % 0x1_0000_0000_0000_0000
        &&& self.finding@ == anomaly_view(temp_dir, self.cycling_elapsed_ms)
        &&& self.cleaned_up == s.cleaned_up
    }
}

/// The finding of a simulation.
pub open spec fn anomaly_view(temp_dir: Seq<char>, cycles_in_ms: u64) -> FindingView {
    FindingView {
        path: temp_dir,
        severity: Severity::Critical,
        risk: RiskKindView::AnomalySimulated { cycles_in_ms },
        description: filled3(
            DESCRIPTION@,
            decimal(CHANGE_COUNT as nat),
            decimal(FILE_COUNT as nat),
            decimal(cycles_in_ms as nat),
        ),
        remediation_hint: HINT@,
    }
}

/// The finding of a simulation.
pub fn anomaly_finding(temp_dir: String, cycles_in_ms: u64) -> (r: RiskFinding)
    ensures
        r@ == anomaly_view(temp_dir@, cycles_in_ms),
{
    let changes = decimal_text(CHANGE_COUNT as u128);
    let files = decimal_text(FILE_COUNT as u128);
    let ms = decimal_text(cycles_in_ms as u128);
    RiskFinding {
        path: temp_dir,
        severity: Severity::Critical,
        risk: RiskKind::AnomalySimulated { cycles_in_ms },
        description: fill3(DESCRIPTION.as_slice(), changes.as_str(), files.as_str(), ms.as_str()),
        remediation_hint: HINT.to_owned(),
    }
}

// ---------------------------------------------------------------------------
// Laws
// ---------------------------------------------------------------------------

/// The list of each file is changed once in each cycle, file by file, and nothing
/// else is changed.
pub proof fn each_file_is_cycled(file: nat, cycle: nat)
    requires
        file < FILE_COUNT,
        cycle < ACL_CYCLES,
    ensures
        action_at((1 + FILE_COUNT + file * ACL_CYCLES + cycle) as nat) == (Action::ChangeAcl {
            file: file as u32,
            cycle: cycle as u32,
            state: state_in(cycle),
        }),
        forall|done: nat| #[trigger]
            action_at(done) == (Action::ChangeAcl {
                file: file as u32,
                cycle: cycle as u32,
                state: state_in(cycle),
            }) ==> done == 1 + FILE_COUNT + file * ACL_CYCLES + cycle,
        forall|done: nat|
            (#[trigger] action_at(done) matches Action::ChangeAcl { file: f, cycle: c, state }
                ==> f < FILE_COUNT && c < ACL_CYCLES),
{
    let n = file * ACL_CYCLES + cycle;
    assert(n / 50 == file && n % 50 == cycle);
}

/// When the last cycle is over, each file is open to everyone, so that it can be
/// removed.
pub proof fn files_end_permissive(file: nat)
    requires
        file < FILE_COUNT,
    ensures
        action_at((FILE_COUNT + (file + 1) * ACL_CYCLES) as nat) == (Action::ChangeAcl {
            file: file as u32,
            cycle: (ACL_CYCLES - 1) as u32,
            state: AclState::Permissive,
        }),
{
    each_file_is_cycled(file, (ACL_CYCLES - 1) as nat);
}

/// A simulation creates, changes and removes nothing but its own directory and files:
/// what it changes or removes, it has created before, each of its files is removed
/// once, and the directory is removed last, when all its files are.
pub proof fn only_its_own_files(done: nat)
    ensures
        match action_at(done) {
            Action::CreateDirectory => done == 0,
            Action::CreateFile { index } => index < FILE_COUNT && done == 1 + index,
            Action::ChangeAcl { file, cycle: _, state: _ } => file < FILE_COUNT && 1 + file < done
                && action_at((1 + file) as nat) == (Action::CreateFile { index: file }),
            Action::RemoveFile { index } => index < FILE_COUNT && done == 1 + FILE_COUNT
                + CHANGE_COUNT + index && action_at((1 + index) as nat) == (Action::CreateFile {
                index,
            }),
            Action::RemoveDirectory => done == ACTION_COUNT - 1 && forall|index: u32|
                index < FILE_COUNT ==> #[trigger] action_at(
                    (1 + FILE_COUNT + CHANGE_COUNT + index) as nat,
                ) == (Action::RemoveFile { index }),
            Action::Finished => done >= ACTION_COUNT,
        },
{
}

/// The dummy files have names of their own.
pub proof fn dummy_names_differ(i: nat, j: nat)
    requires
        i < j < FILE_COUNT,
    ensures
        dummy_name(i) != dummy_name(j),
{
    let x = padded(decimal(i), 3, '0');
    let y = padded(decimal(j), 3, '0');
    lemma_number_of_a_file(i);
    lemma_number_of_a_file(j);
    if dummy_name(i) == dummy_name(j) {
        let n = DUMMY_NAME@[0]@.len() as int;
        assert(dummy_name(i)[n + 1] == x[1] && dummy_name(j)[n + 1] == y[1]);
        assert(dummy_name(i)[n + 2] == x[2] && dummy_name(j)[n + 2] == y[2]);
        assert(x[1] as u32 == 48 + i / 10 && y[1] as u32 == 48 + j / 10);
        assert(x[2] as u32 == 48 + i % 10 && y[2] as u32 == 48 + j % 10);
    }
}

proof fn lemma_number_of_a_file(i: nat)
    requires
        i < FILE_COUNT,
    ensures
        padded(decimal(i), 3, '0').len() == 3,
        padded(decimal(i), 3, '0')[1] == digit(i / 10),
        padded(decimal(i), 3, '0')[2] == digit(i % 10),
{
    reveal_with_fuel(decimal, 2);
    assert(digit(0) == '0');
    if i < 10 {
        assert(decimal(i) == seq![digit(i)]);
    } else {
        assert(decimal(i) == seq![digit(i / 10)].push(digit(i % 10)));
    }
}

/// A simulation fails only in its setup: where each action was done, it goes on
/// whatever the codes of the changes are, and ends when all its actions are done.
pub proof fn codes_do_not_stop(outcomes: Seq<Outcome>)
    requires
        forall|i: int| 0 <= i < outcomes.len() ==> (#[trigger] outcomes[i]) is Done,
    ensures
        after_outcomes(true, outcomes) matches Ok(s) && s.wf() && s.windows && s.done == if outcomes.len()
            <= ACTION_COUNT {
            outcomes.len()
        } else {
            ACTION_COUNT as nat
        },
        CHANGE_COUNT == FILE_COUNT * ACL_CYCLES,
        ACTION_COUNT == 1 + FILE_COUNT + CHANGE_COUNT + FILE_COUNT + 1,
    decreases outcomes.len(),
{
    if outcomes.len() > 0 {
        let head = outcomes.drop_last();
        assert forall|i: int| 0 <= i < head.len() implies (#[trigger] head[i]) is Done by {
            assert(head[i] == outcomes[i]);
        }
        codes_do_not_stop(head);
        assert(outcomes[outcomes.len() - 1] is Done);
    }
}

/// On a system without access control lists nothing is ever changed.
pub proof fn other_systems_change_nothing(outcomes: Seq<Outcome>)
    ensures
        after_outcomes(false, outcomes) matches Ok(s) ==> s.done <= 1 + FILE_COUNT && s.failures
            == 0 && !s.windows,
    decreases outcomes.len(),
{
    if outcomes.len() > 0 {
        other_systems_change_nothing(outcomes.drop_last());
    }
}

} // verus!
