//! Archiving one post: the tasks of a unit of work, one after the other.
//!
//! The post is stored first. Then each blob of the unit is saved in turn,
//! unless the store has it: the store is asked, and only what it lacks is
//! fetched and stored. The first task that fails ends the unit, with an
//! error that says what failed; the tasks after it are never started.
//!
//! Like the engine, a unit does no I/O. [`UnitRun::next`] takes what the
//! last task came to and answers with the next task.

use crate::archiver::WorkUnit;
use crate::client::{body_response, spec_classify, StatusClass};
use crate::error::ArchiveError;
use crate::storage::{plan_save, spec_plan_save, SavePlan};
use vstd::prelude::*;

verus! {

/// What the caller reports about the last task.
#[derive(Debug)]
pub enum Report {
    /// Nothing yet: the unit is about to start.
    Begin,
    /// The task is done: the post is stored, or the blob is.
    Done,
    /// The store was asked for the blob and answered.
    Found(bool),
    /// The request for the blob was answered with this status and body.
    Body { status: u16, bytes: Vec<u8> },
    /// The task failed.
    Failed,
}

/// What the caller is to do next. A blob is named by its position among the
/// blobs of the unit.
#[derive(Debug)]
pub enum Task {
    /// Upsert the post of the unit; report `Done` or `Failed`.
    SavePost,
    /// Ask the store whether it has the blob; report `Found` or `Failed`.
    CheckBlob(usize),
    /// Send the request of the blob; report `Body` or `Failed`.
    FetchBlob(usize),
    /// Store these bytes under the key of the blob; report `Done` or
    /// `Failed`.
    StoreBlob(usize, Vec<u8>),
    /// The unit has ended, with this outcome. Its permit goes back.
    Finish(Result<(), ArchiveError>),
}

/// Which report a unit waits for.
#[derive(Debug, Clone, Copy, PartialEq, Eq, Structural)]
pub enum Stage {
    /// Nothing is started.
    New,
    /// The post is being stored.
    SavingPost,
    /// The store is being asked for the blob at this position.
    Checking(usize),
    /// The blob at this position is being fetched.
    Fetching(usize),
    /// The blob at this position is being stored.
    Storing(usize),
    /// The unit has ended.
    Finished,
}

/// What a report says of the store: whether it has the blob it was asked
/// for, or that asking failed.
pub open spec fn spec_found(report: Report) -> Result<bool, ArchiveError> {
    match report {
        Report::Found(there) => Ok(there),
        _ => Err(ArchiveError::Storage),
    }
}

/// What a report says of the store: whether it has the blob it was asked
/// for, or that asking failed.
pub fn found(report: &Report) -> (answer: Result<bool, ArchiveError>)
    ensures
        answer == spec_found(*report),
{
    match report {
        Report::Found(there) => Ok(*there),
        _ => Err(ArchiveError::Storage),
    }
}

/// The state of a unit, as contracts speak of it.
pub struct UnitState {
    pub stage: Stage,
    /// How the unit ended, once it has.
    pub outcome: Result<(), ArchiveError>,
    /// The number of blobs of the unit.
    pub blobs: nat,
}

impl UnitState {
    /// What holds of every state that a unit reaches.
    pub open spec fn wf(self) -> bool {
        &&& self.blobs <= usize::MAX
        &&& self.stage != Stage::Finished ==> self.outcome is Ok
        &&& match self.stage {
            Stage::Checking(blob) | Stage::Fetching(blob) | Stage::Storing(blob) => blob
                < self.blobs,
            _ => true,
        }
    }

    /// The state with the unit ended.
    pub open spec fn ended(self, outcome: Result<(), ArchiveError>) -> (UnitState, Task) {
        (UnitState { stage: Stage::Finished, outcome, ..self }, Task::Finish(outcome))
    }

    /// The state that turns to the blob at position `blob`, or ends the
    /// unit with success where there is no such blob.
    pub open spec fn turn_to(self, blob: int) -> (UnitState, Task) {
        if 0 <= blob < self.blobs {
            (
                UnitState { stage: Stage::Checking(blob as usize), ..self },
                Task::CheckBlob(blob as usize),
            )
        } else {
            self.ended(Ok(()))
        }
    }

    /// The state after `report`, and the task that follows it.
    ///
    /// In every stage one kind of report carries the unit on; any other
    /// report means that the task of the stage failed.
    pub open spec fn next(self, report: Report) -> (UnitState, Task) {
        match self.stage {
            Stage::New => (UnitState { stage: Stage::SavingPost, ..self }, Task::SavePost),
            Stage::SavingPost => match report {
                Report::Done => self.turn_to(0),
                _ => self.ended(Err(ArchiveError::Persistence)),
            },
            Stage::Checking(blob) => match spec_plan_save(spec_found(report), false) {
                Ok(SavePlan::Present) => self.turn_to(blob + 1),
                Ok(_) => (
                    UnitState { stage: Stage::Fetching(blob), ..self },
                    Task::FetchBlob(blob),
                ),
                Err(e) => self.ended(Err(e)),
            },
            Stage::Fetching(blob) => match report {
                Report::Body { status, bytes } => match spec_classify(status) {
                    StatusClass::Success => (
                        UnitState { stage: Stage::Storing(blob), ..self },
                        Task::StoreBlob(blob, bytes),
                    ),
                    StatusClass::NotFound => self.ended(Err(ArchiveError::NotFound)),
                    _ => self.ended(Err(ArchiveError::Transport)),
                },
                _ => self.ended(Err(ArchiveError::Transport)),
            },
            Stage::Storing(blob) => match report {
                Report::Done => self.turn_to(blob + 1),
                _ => self.ended(Err(ArchiveError::Storage)),
            },
            Stage::Finished => (self, Task::Finish(self.outcome)),
        }
    }

    /// How many more tasks the unit can ask for at most, the final one
    /// included.
    pub open spec fn tasks_left(self) -> nat {
        match self.stage {
            Stage::New => 3 * self.blobs + 3,
            Stage::SavingPost => 3 * self.blobs + 2,
            Stage::Checking(blob) => (3 * (self.blobs - blob) + 1) as nat,
            Stage::Fetching(blob) => (3 * (self.blobs - blob)) as nat,
            Stage::Storing(blob) => (3 * (self.blobs - blob) - 1) as nat,
            Stage::Finished => 0,
        }
    }
}

/// A unit of work in progress.
#[derive(Debug)]
pub struct UnitRun {
    unit: WorkUnit,
    stage: Stage,
    outcome: Result<(), ArchiveError>,
}

impl UnitRun {
    /// The state of the unit.
    pub closed spec fn view(&self) -> UnitState {
        UnitState { stage: self.stage, outcome: self.outcome, blobs: self.unit.blobs@.len() }
    }

    /// The unit of work that is run.
    pub closed spec fn work(&self) -> WorkUnit {
        self.unit
    }

    /// What holds of every unit in progress.
    pub open spec fn wf(&self) -> bool {
        self@.wf() && self@.blobs == self.work().blobs@.len()
    }

    /// A run of `unit` of which nothing is started.
    pub fn new(unit: WorkUnit) -> (run: Self)
        ensures
            run.work() == unit,
            run@ == (UnitState { stage: Stage::New, outcome: Ok(()), blobs: unit.blobs@.len() }),
            run.wf(),
    {
        assert(unit.blobs@.len() == unit.blobs.len());
        UnitRun { unit, stage: Stage::New, outcome: Ok(()) }
    }

    /// The unit of work that is run.
    pub fn unit(&self) -> (unit: &WorkUnit)
        ensures
            *unit == self.work(),
    {
        &self.unit
    }

    /// Which report the unit waits for.
    pub fn stage(&self) -> (stage: Stage)
        ensures
            stage == self@.stage,
    {
        self.stage
    }

    fn end(&mut self, outcome: Result<(), ArchiveError>) -> (task: Task)
        ensures
            (final(self)@, task) == old(self)@.ended(outcome),
            final(self).work() == old(self).work(),
    {
        self.stage = Stage::Finished;
        self.outcome = outcome;
        Task::Finish(outcome)
    }

    fn turn_to(&mut self, blob: usize) -> (task: Task)
        ensures
            (final(self)@, task) == old(self)@.turn_to(blob as int),
            final(self).work() == old(self).work(),
    {
        if blob < self.unit.blobs.len() {
            self.stage = Stage::Checking(blob);
            Task::CheckBlob(blob)
        } else {
            self.end(Ok(()))
        }
    }

    /// Takes what the last task came to and answers with the next task.
    /// The first report of a run is `Begin`.
    pub fn next(&mut self, report: Report) -> (task: Task)
        requires
            old(self).wf(),
        ensures
            (final(self)@, task) == old(self)@.next(report),
            final(self).work() == old(self).work(),
            final(self).wf(),
    {
        match self.stage {
            Stage::New => {
                self.stage = Stage::SavingPost;
                Task::SavePost
            },
            Stage::SavingPost => match report {
                Report::Done => self.turn_to(0),
                _ => self.end(Err(ArchiveError::Persistence)),
            },
            Stage::Checking(blob) => match plan_save(found(&report), false) {
                Ok(SavePlan::Present) => self.turn_to(blob + 1),
                Ok(_) => {
                    self.stage = Stage::Fetching(blob);
                    Task::FetchBlob(blob)
                },
                Err(e) => self.end(Err(e)),
            },
            Stage::Fetching(blob) => match report {
                Report::Body { status, bytes } => match body_response(status, bytes) {
                    Ok(body) => {
                        self.stage = Stage::Storing(blob);
                        Task::StoreBlob(blob, body)
                    },
                    Err(e) => self.end(Err(e)),
                },
                _ => self.end(Err(ArchiveError::Transport)),
            },
            Stage::Storing(blob) => match report {
                Report::Done => self.turn_to(blob + 1),
                _ => self.end(Err(ArchiveError::Storage)),
            },
            Stage::Finished => Task::Finish(self.outcome),
        }
    }
}

/// Every task brings the unit closer to its end, and a unit that can ask
/// for no more tasks has ended: no unit runs forever, so every permit comes
/// back.
pub proof fn lemma_unit_ends(state: UnitState, report: Report)
    requires
        state.wf(),
    ensures
        state.next(report).0.wf(),
        state.next(report).0.blobs == state.blobs,
        state.stage != Stage::Finished ==> state.next(report).0.tasks_left() < state.tasks_left(),
        state.tasks_left() == 0 <==> state.stage == Stage::Finished,
        state.next(report).1 is Finish <==> state.next(report).0.stage == Stage::Finished,
{
}

/// A blob is fetched only where the store was asked and said that it lacks
/// the blob, and bytes are stored only where they were fetched with
/// success. What the store has is never fetched again.
pub proof fn lemma_save_if_absent(state: UnitState, report: Report)
    requires
        state.wf(),
    ensures
        state.next(report).1 matches Task::FetchBlob(blob) ==> state.stage == Stage::Checking(blob)
            && report == Report::Found(false),
        state.next(report).1 matches Task::StoreBlob(blob, body) ==> state.stage
            == Stage::Fetching(blob) && (report matches Report::Body { status, bytes }
            && spec_classify(status) == StatusClass::Success && bytes == body),
        state.stage is Checking && report == Report::Found(true) ==> !(state.next(report).1
            is FetchBlob) && !(state.next(report).1 is StoreBlob),
{
}

/// The first failure ends the unit: the outcome says what failed, and no
/// task follows but the report of that outcome.
pub proof fn lemma_failure_ends_the_unit(state: UnitState, first: Report, later: Report)
    requires
        state.wf(),
        state.next(first).0.outcome is Err,
    ensures
        state.next(first).0.stage == Stage::Finished,
        state.next(first).0.next(later) == (
            state.next(first).0,
            Task::Finish(state.next(first).0.outcome),
        ),
        state.stage == Stage::SavingPost && !(first is Done) ==> state.next(first).0.outcome == Err::<
            (),
            ArchiveError,
        >(ArchiveError::Persistence),
{
}

/// The blobs are saved in their order: when one is done with, the next one
/// is turned to, and after the last one the unit ends with success.
pub proof fn lemma_blobs_in_order(state: UnitState, blob: usize)
    requires
        state.wf(),
        state.stage == Stage::Checking(blob) || state.stage == Stage::Storing(blob),
    ensures
        ({
            let report = if state.stage == Stage::Checking(blob) {
                Report::Found(true)
            } else {
                Report::Done
            };
            if blob + 1 < state.blobs {
                state.next(report).1 == Task::CheckBlob((blob + 1) as usize)
            } else {
                state.next(report).1 == Task::Finish(Ok(()))
            }
        }),
{
}

} // verus!
