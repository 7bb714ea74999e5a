//! The course of a sweep, step by step: what is printed, which workload is
//! measured next, when the collector gets its round, and what follows when
//! a measurement does not come about. The caller does what each step asks
//! for and says how it went.

use crate::workloads::Workload;
use vstd::prelude::*;

verus! {

/// What is done for one table: the line that announces it, whether it is
/// skipped, and the workloads to measure it with, none where it is skipped.
#[derive(Debug)]
pub struct CasePlan {
    pub heading: String,
    pub skipped: bool,
    pub workloads: Vec<Workload>,
}

/// One table of a sweep with what is done for it.
#[derive(Debug)]
pub struct Planned<C> {
    pub case: C,
    pub plan: CasePlan,
}

/// A whole sweep: the line that announces it, and the tables in order, each
/// with its plan.
#[derive(Debug)]
pub struct Sweep<C> {
    pub heading: String,
    pub cases: Vec<Planned<C>>,
}

/// How the last step went.
#[derive(Clone, Copy, Debug, PartialEq, Eq, Structural)]
pub enum Outcome {
    /// It was done. For a measurement: there is a record of it.
    Done,
    /// The workload could not be run, and nothing was started.
    Refused,
    /// The run was started and broke down.
    Failed,
}

/// What the caller is to do next.
#[derive(Debug)]
pub enum Action<C> {
    /// Print this line.
    Announce(String),
    /// Print an empty line: a table is done with.
    Blank,
    /// Measure this table with this workload, and report the record.
    Measure(C, Workload),
    /// Pause, and give the collector its round.
    Collect,
    /// Nothing: the sweep is over.
    Finish,
}

/// Where in its course a sweep stands.
#[derive(Clone, Copy, Debug, PartialEq, Eq, Structural)]
pub enum Stage {
    /// Nothing has been printed yet.
    Opening,
    /// The next table is to be announced.
    Heading,
    /// The next workload of the table is to be measured.
    Measuring,
    /// A measurement was asked for, and its outcome is awaited.
    Collecting,
    /// A run has broken down, and its table is to be left.
    Leaving,
    /// The sweep is over.
    Finished,
}

/// The place of a sweep in its course: the table, the workload of that
/// table, and the stage.
pub struct Position {
    pub case: nat,
    pub workload: nat,
    pub stage: Stage,
}

/// An action as it is spoken of: a line by its characters.
pub enum Act<C> {
    Announce(Seq<char>),
    Blank,
    Measure(C, Workload),
    Collect,
    Finish,
}

impl<C> Action<C> {
    /// The action as it is spoken of.
    pub open spec fn act(self) -> Act<C> {
        match self {
            Action::Announce(line) => Act::Announce(line@),
            Action::Blank => Act::Blank,
            Action::Measure(case, workload) => Act::Measure(case, workload),
            Action::Collect => Act::Collect,
            Action::Finish => Act::Finish,
        }
    }
}

/// The place is one that the course of the sweep can come to.
pub open spec fn in_course<C>(sweep: Sweep<C>, at: Position) -> bool {
    &&& at.case <= sweep.cases@.len()
    &&& match at.stage {
        Stage::Opening => at.case == 0 && at.workload == 0,
        Stage::Heading => at.workload == 0,
        Stage::Measuring => {
            &&& at.case < sweep.cases@.len()
            &&& !sweep.cases@[at.case as int].plan.skipped
            &&& at.workload <= sweep.cases@[at.case as int].plan.workloads@.len()
        },
        Stage::Collecting | Stage::Leaving => {
            &&& at.case < sweep.cases@.len()
            &&& !sweep.cases@[at.case as int].plan.skipped
            &&& at.workload < sweep.cases@[at.case as int].plan.workloads@.len()
        },
        Stage::Finished => at.case == sweep.cases@.len() && at.workload == 0,
    }
}

/// The step that turns to the table at `case`: it is announced, and then
/// measured unless it is skipped. After the last table the sweep is over.
pub open spec fn turn_to<C>(sweep: Sweep<C>, case: nat) -> (Position, Act<C>) {
    if case >= sweep.cases@.len() {
        (Position { case, workload: 0, stage: Stage::Finished }, Act::Finish)
    } else if sweep.cases@[case as int].plan.skipped {
        (
            Position { case: case + 1, workload: 0, stage: Stage::Heading },
            Act::Announce(sweep.cases@[case as int].plan.heading@),
        )
    } else {
        (
            Position { case, workload: 0, stage: Stage::Measuring },
            Act::Announce(sweep.cases@[case as int].plan.heading@),
        )
    }
}

/// The step that goes on with the workload at `workload` of the table at
/// `case`: it is measured. After the last workload the table is done with.
pub open spec fn go_on_with<C>(sweep: Sweep<C>, case: nat, workload: nat) -> (Position, Act<C>) {
    let plan = sweep.cases@[case as int].plan;
    if workload >= plan.workloads@.len() {
        (Position { case: case + 1, workload: 0, stage: Stage::Heading }, Act::Blank)
    } else {
        (
            Position { case, workload, stage: Stage::Collecting },
            Act::Measure(sweep.cases@[case as int].case, plan.workloads@[workload as int]),
        )
    }
}

/// One step of the course: where the sweep stands afterwards and what the
/// caller is to do, given where it stands and how the last step went.
///
/// The sweep is announced, then one table after the other. A table that is
/// not skipped is measured with its workloads in order. After every run the
/// collector gets its round. A workload that could not be run is passed
/// over without one. A run that broke down ends the table: its other
/// workloads are not measured, and the sweep goes on with the next.
pub open spec fn step<C>(sweep: Sweep<C>, at: Position, last: Outcome) -> (Position, Act<C>) {
    match at.stage {
        Stage::Opening => (
            Position { case: 0, workload: 0, stage: Stage::Heading },
            Act::Announce(sweep.heading@),
        ),
        Stage::Heading => turn_to(sweep, at.case),
        Stage::Measuring => go_on_with(sweep, at.case, at.workload),
        Stage::Collecting => match last {
            Outcome::Done => (
                Position { case: at.case, workload: at.workload + 1, stage: Stage::Measuring },
                Act::Collect,
            ),
            Outcome::Refused => go_on_with(sweep, at.case, at.workload + 1),
            Outcome::Failed => (
                Position { case: at.case, workload: at.workload, stage: Stage::Leaving },
                Act::Collect,
            ),
        },
        Stage::Leaving => (
            Position { case: at.case + 1, workload: 0, stage: Stage::Heading },
            Act::Blank,
        ),
        Stage::Finished => (at, Act::Finish),
    }
}

/// How far the stages of one workload are from each other.
pub open spec fn rank(stage: Stage) -> nat {
    match stage {
        Stage::Opening => 0,
        Stage::Heading => 1,
        Stage::Measuring => 2,
        Stage::Collecting => 3,
        Stage::Leaving => 4,
        Stage::Finished => 5,
    }
}

/// `after` is further on in the course than `before`: at a later table, or
/// at a later workload of the same table, or at a later stage of the same
/// workload.
pub open spec fn further(before: Position, after: Position) -> bool {
    ||| after.case > before.case
    ||| after.case == before.case && after.workload > before.workload
    ||| after.case == before.case && after.workload == before.workload && rank(after.stage)
        > rank(before.stage)
}

/// Every step but the last leads further on in the course, to a place that
/// the course can come to. So the course comes to its end.
pub proof fn lemma_step_leads_on<C>(sweep: Sweep<C>, at: Position, last: Outcome)
    requires
        in_course(sweep, at),
    ensures
        in_course(sweep, step(sweep, at, last).0),
        at.stage != Stage::Finished ==> further(at, step(sweep, at, last).0),
        at.stage == Stage::Finished <==> step(sweep, at, last).1 == Act::<C>::Finish
            && step(sweep, at, last).0 == at,
{
}

/// A run that broke down ends its table: the collector gets its round,
/// the empty line is printed, and the sweep turns to the next table.
pub proof fn lemma_breakdown_ends_the_table<C>(sweep: Sweep<C>, at: Position, then: Outcome)
    requires
        in_course(sweep, at),
        at.stage == Stage::Collecting,
    ensures
        step(sweep, at, Outcome::Failed).1 == Act::<C>::Collect,
        step(sweep, step(sweep, at, Outcome::Failed).0, then).1 == Act::<C>::Blank,
        step(sweep, step(sweep, at, Outcome::Failed).0, then).0 == (Position {
            case: at.case + 1,
            workload: 0,
            stage: Stage::Heading,
        }),
{
}

/// What is measured is the workload at which the sweep then stands, of a
/// table that is not skipped. The collector gets its round after every run
/// that was started, whether it was done or broke down, and only then.
pub proof fn lemma_measures_what_is_planned<C>(sweep: Sweep<C>, at: Position, last: Outcome)
    requires
        in_course(sweep, at),
    ensures
        ({
            let (next, act) = step(sweep, at, last);
            &&& act is Measure ==> {
                &&& next.stage == Stage::Collecting
                &&& next.case < sweep.cases@.len()
                &&& !sweep.cases@[next.case as int].plan.skipped
                &&& next.workload < sweep.cases@[next.case as int].plan.workloads@.len()
                &&& act == Act::Measure(
                    sweep.cases@[next.case as int].case,
                    sweep.cases@[next.case as int].plan.workloads@[next.workload as int],
                )
            }
            &&& act is Collect <==> at.stage == Stage::Collecting && last != Outcome::Refused
        }),
{
}

/// A sweep on its course.
pub struct Driver<C> {
    sweep: Sweep<C>,
    case: usize,
    workload: usize,
    stage: Stage,
}

impl<C: Copy> Driver<C> {
    /// The sweep that is driven.
    pub closed spec fn sweep(&self) -> Sweep<C> {
        self.sweep
    }

    /// Where the sweep stands.
    pub closed spec fn position(&self) -> Position {
        Position { case: self.case as nat, workload: self.workload as nat, stage: self.stage }
    }

    /// The sweep stands at a place that its course can come to.
    pub open spec fn wf(&self) -> bool {
        in_course(self.sweep(), self.position())
    }

    /// The sweep before its first step.
    pub fn new(sweep: Sweep<C>) -> (driver: Self)
        ensures
            driver.wf(),
            driver.sweep() == sweep,
            driver.position() == (Position { case: 0, workload: 0, stage: Stage::Opening }),
    {
        Driver { sweep, case: 0, workload: 0, stage: Stage::Opening }
    }

    /// Whether the sweep is over.
    pub fn is_finished(&self) -> (over: bool)
        ensures
            over == (self.position().stage == Stage::Finished),
    {
        match self.stage {
            Stage::Finished => true,
            _ => false,
        }
    }

    fn turn(&mut self) -> (action: Action<C>)
        requires
            old(self).case <= old(self).sweep.cases@.len(),
        ensures
            final(self).sweep == old(self).sweep,
            (final(self).position(), action.act()) == turn_to(
                old(self).sweep,
                old(self).case as nat,
            ),
    {
        self.workload = 0;
        if self.case >= self.sweep.cases.len() {
            self.stage = Stage::Finished;
            Action::Finish
        } else {
            assert(self.case < self.sweep.cases.len());
            let line = self.sweep.cases[self.case].plan.heading.clone();
            if self.sweep.cases[self.case].plan.skipped {
                self.case = self.case + 1;
                self.stage = Stage::Heading;
            } else {
                self.stage = Stage::Measuring;
            }
            Action::Announce(line)
        }
    }

    fn go_on(&mut self) -> (action: Action<C>)
        requires
            old(self).case < old(self).sweep.cases@.len(),
        ensures
            final(self).sweep == old(self).sweep,
            (final(self).position(), action.act()) == go_on_with(
                old(self).sweep,
                old(self).case as nat,
                old(self).workload as nat,
            ),
    {
        assert(self.case < self.sweep.cases.len());
        if self.workload >= self.sweep.cases[self.case].plan.workloads.len() {
            self.case = self.case + 1;
            self.workload = 0;
            self.stage = Stage::Heading;
            Action::Blank
        } else {
            self.stage = Stage::Collecting;
            Action::Measure(
                self.sweep.cases[self.case].case,
                self.sweep.cases[self.case].plan.workloads[self.workload],
            )
        }
    }

    /// The next step: says what the caller is to do, given how the last
    /// step went, and moves on.
    pub fn next(&mut self, last: Outcome) -> (action: Action<C>)
        requires
            old(self).wf(),
        ensures
            final(self).wf(),
            final(self).sweep() == old(self).sweep(),
            (final(self).position(), action.act()) == step(
                old(self).sweep(),
                old(self).position(),
                last,
            ),
    {
        proof {
            lemma_step_leads_on(self.sweep, self.position(), last);
        }
        match self.stage {
            Stage::Opening => {
                self.stage = Stage::Heading;
                Action::Announce(self.sweep.heading.clone())
            },
            Stage::Heading => self.turn(),
            Stage::Measuring => self.go_on(),
            Stage::Collecting => match last {
                Outcome::Done => {
                    assert(self.workload < self.sweep.cases[self.case as int].plan.workloads.len());
                    self.workload = self.workload + 1;
                    self.stage = Stage::Measuring;
                    Action::Collect
                },
                Outcome::Refused => {
                    assert(self.workload < self.sweep.cases[self.case as int].plan.workloads.len());
                    self.workload = self.workload + 1;
                    self.go_on()
                },
                Outcome::Failed => {
                    self.stage = Stage::Leaving;
                    Action::Collect
                },
            },
            Stage::Leaving => {
                assert(self.case < self.sweep.cases.len());
                self.case = self.case + 1;
                self.workload = 0;
                self.stage = Stage::Heading;
                Action::Blank
            },
            Stage::Finished => Action::Finish,
        }
    }
}

} // verus!
