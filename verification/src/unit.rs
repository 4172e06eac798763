//! One command group as a unit of work: its commands run one after the
//! other, and the first failure ends it.

use crate::command::{command_args, command_overlay, texts};
use crate::task::{
    empty_command_message, failure_message, is_plan_of, judge, plan_task, Invocation, Outcome,
};
use vstd::prelude::*;

verus! {

/// The state of a unit: the commands of its group, how many of them have
/// succeeded, and the failure that stopped it, if one did.
pub struct UnitView {
    pub commands: Seq<Seq<char>>,
    pub cursor: nat,
    pub failure: Option<Seq<char>>,
}

/// What a unit does next.
pub enum StepView {
    /// It runs the command at its cursor.
    Execute { command: Seq<char> },
    /// It runs nothing more; `failure` is `None` where every command succeeded.
    Finished { failure: Option<Seq<char>> },
}

/// What a unit in state `unit` does next: nothing once a command has
/// failed or all have succeeded; else it runs the command at the cursor,
/// unless that command names no program, which is a failure of its own.
pub open spec fn unit_step(unit: UnitView) -> StepView {
    if unit.failure is Some {
        StepView::Finished { failure: unit.failure }
    } else if unit.cursor >= unit.commands.len() {
        StepView::Finished { failure: None }
    } else if command_args(unit.commands[unit.cursor as int]).len() == 0 {
        StepView::Finished {
            failure: Some(empty_command_message(unit.commands[unit.cursor as int])),
        }
    } else {
        StepView::Execute { command: unit.commands[unit.cursor as int] }
    }
}

/// The error text with which `outcome` fails the command string
/// `command`; `None` for a success.
pub open spec fn outcome_failure(command: Seq<char>, outcome: Outcome) -> Option<Seq<char>> {
    match outcome {
        Outcome::Success => None,
        Outcome::Failure { exit_code, .. } => Some(failure_message(command, exit_code)),
        Outcome::SpawnFailure { cause } => Some(cause@),
    }
}

/// The state of a unit after the command at its cursor ended with
/// `outcome`: a success moves the cursor on, anything else stops the unit
/// where it is. A unit that runs nothing more stays as it is.
pub open spec fn unit_after(unit: UnitView, outcome: Outcome) -> UnitView {
    if unit.failure is Some || unit.cursor >= unit.commands.len() {
        unit
    } else {
        match outcome_failure(unit.commands[unit.cursor as int], outcome) {
            None => UnitView { cursor: unit.cursor + 1, ..unit },
            Some(e) => UnitView { failure: Some(e), ..unit },
        }
    }
}

/// The state of a unit after the outcomes `outcomes`, one after the other.
pub open spec fn unit_after_all(unit: UnitView, outcomes: Seq<Outcome>) -> UnitView
    decreases outcomes.len(),
{
    if outcomes.len() == 0 {
        unit
    } else {
        unit_after(unit_after_all(unit, outcomes.drop_last()), outcomes.last())
    }
}

/// One concurrent unit of work: the commands of one group, run one after
/// the other until all have succeeded or one has failed.
#[derive(Debug)]
pub struct Unit {
    commands: Vec<String>,
    cursor: usize,
    failure: Option<String>,
}

/// What the caller of a unit has to do next.
#[derive(Debug)]
pub enum Step {
    /// Start this process and record how it ended.
    Execute(Invocation),
    /// Nothing more: the unit has ended with this result.
    Finished(Result<(), String>),
}

/// The characters of an optional text.
pub open spec fn option_text(text: Option<String>) -> Option<Seq<char>> {
    match text {
        Some(t) => Some(t@),
        None => None,
    }
}

/// The failure that a result carries, if it is one.
pub open spec fn result_failure(r: Result<(), String>) -> Option<Seq<char>> {
    match r {
        Ok(_) => None,
        Err(e) => Some(e@),
    }
}

impl View for Unit {
    type V = UnitView;

    closed spec fn view(&self) -> UnitView {
        UnitView {
            commands: texts(self.commands@),
            cursor: self.cursor as nat,
            failure: option_text(self.failure),
        }
    }
}

impl Unit {
    #[verifier::type_invariant]
    spec fn cursor_in_range(self) -> bool {
        self.cursor <= self.commands@.len()
    }

    /// A unit for the commands of one group, none of them run yet.
    pub fn new(commands: Vec<String>) -> (unit: Self)
        ensures
            unit@ == (UnitView { commands: texts(commands@), cursor: 0, failure: None }),
    {
        Unit { commands, cursor: 0, failure: None }
    }

    /// What to do next. Where that is to start a process, it is the one
    /// that the command at the cursor describes.
    pub fn next(&self) -> (step: Step)
        ensures
            match step {
                Step::Execute(invocation) => {
                    &&& unit_step(self@) matches StepView::Execute { command }
                    &&& is_plan_of(
                        command,
                        command_overlay(command),
                        command_args(command),
                        Ok(invocation),
                    )
                },
                Step::Finished(r) => unit_step(self@) == (StepView::Finished {
                    failure: result_failure(r),
                }),
            },
    {
        proof {
            use_type_invariant(self);
        }
        match &self.failure {
            Some(e) => Step::Finished(Err(e.clone())),
            None => {
                if self.cursor >= self.commands.len() {
                    Step::Finished(Ok(()))
                } else {
                    match plan_task(self.commands[self.cursor].as_str()) {
                        Ok(invocation) => Step::Execute(invocation),
                        Err(e) => Step::Finished(Err(e)),
                    }
                }
            },
        }
    }

    /// Records how the command at the cursor ended.
    pub fn record(&mut self, outcome: &Outcome)
        ensures
            final(self)@ == unit_after(old(self)@, *outcome),
    {
        proof {
            use_type_invariant(&*self);
        }
        if self.failure.is_none() && self.cursor < self.commands.len() {
            match judge(self.commands[self.cursor].as_str(), outcome) {
                Ok(_) => {
                    self.cursor = self.cursor + 1;
                },
                Err(e) => {
                    self.failure = Some(e);
                },
            }
        }
    }
}

/// A unit that has failed runs nothing more: whatever is recorded, it
/// stays as it is and ends with its failure.
pub proof fn law_failed_unit_runs_nothing_more(unit: UnitView, outcomes: Seq<Outcome>)
    requires
        unit.failure is Some,
    ensures
        unit_after_all(unit, outcomes) == unit,
        unit_step(unit_after_all(unit, outcomes)) == (StepView::Finished { failure: unit.failure }),
    decreases outcomes.len(),
{
    if outcomes.len() > 0 {
        law_failed_unit_runs_nothing_more(unit, outcomes.drop_last());
    }
}

/// The unit of a group, none of its commands run yet.
pub open spec fn fresh_unit(commands: Seq<Seq<char>>) -> UnitView {
    UnitView { commands, cursor: 0, failure: None }
}

/// A unit stops at the first command that fails. After any outcomes,
/// recorded from the first command on, every command before the cursor has
/// succeeded, in order; a failed unit failed on the command at its cursor,
/// with the failure of the first outcome that is no success, and no
/// command behind the cursor has run.
pub proof fn law_unit_stops_at_first_failure(commands: Seq<Seq<char>>, outcomes: Seq<Outcome>)
    ensures
        unit_after_all(fresh_unit(commands), outcomes).commands == commands,
        unit_after_all(fresh_unit(commands), outcomes).cursor <= commands.len(),
        unit_after_all(fresh_unit(commands), outcomes).cursor <= outcomes.len(),
        forall|j: int|
            0 <= j < unit_after_all(fresh_unit(commands), outcomes).cursor ==> outcomes[j] is Success,
        unit_after_all(fresh_unit(commands), outcomes).failure is Some ==> {
            let cursor = unit_after_all(fresh_unit(commands), outcomes).cursor as int;
            &&& cursor < commands.len()
            &&& cursor < outcomes.len()
            &&& !(outcomes[cursor] is Success)
            &&& unit_after_all(fresh_unit(commands), outcomes).failure == outcome_failure(
                commands[cursor],
                outcomes[cursor],
            )
        },
        unit_after_all(fresh_unit(commands), outcomes).failure is None ==> {
            ||| unit_after_all(fresh_unit(commands), outcomes).cursor == outcomes.len()
            ||| unit_after_all(fresh_unit(commands), outcomes).cursor == commands.len()
        },
    decreases outcomes.len(),
{
    if outcomes.len() > 0 {
        let earlier = outcomes.drop_last();
        law_unit_stops_at_first_failure(commands, earlier);
        let before = unit_after_all(fresh_unit(commands), earlier);
        let after = unit_after_all(fresh_unit(commands), outcomes);
        assert(after == unit_after(before, outcomes.last()));
        assert forall|j: int| 0 <= j < after.cursor implies outcomes[j] is Success by {
            if j < before.cursor {
                assert(earlier[j] is Success);
            }
        }
        if before.failure is Some {
            assert(outcomes[before.cursor as int] == earlier[before.cursor as int]);
        }
    }
}

/// A unit runs its commands strictly in order: the cursor only moves on by
/// one, and only when the command at the cursor has succeeded.
pub proof fn law_unit_runs_in_order(unit: UnitView, outcome: Outcome)
    requires
        unit.failure is None,
        unit.cursor < unit.commands.len(),
    ensures
        unit_after(unit, outcome).commands == unit.commands,
        outcome is Success ==> unit_after(unit, outcome).cursor == unit.cursor + 1
            && unit_after(unit, outcome).failure is None,
        !(outcome is Success) ==> unit_after(unit, outcome).cursor == unit.cursor && unit_after(
            unit,
            outcome,
        ).failure is Some,
{
}

} // verus!
