//! The sequencer: which stage a process runs, and what follows it.
//!
//! A process runs one stage. [`plan`] says what that stage is to do, [`follow`]
//! says what comes after the stage has reported, and [`run`] carries both out
//! with the operations it is handed.

use crate::config::Config;
use crate::error::{Failure, SequencerError};
use crate::request::{chain_request, ExecutionRequest, RequestView};
use crate::stage::{
    known_stage, last_stage, select, stage_at, unknown_stage, Collaborator, STAGE_COUNT,
};
use vstd::prelude::*;

verus! {

/// What a process does for its stage.
#[derive(Debug, PartialEq, Eq)]
pub enum Plan {
    /// The configuration names no stage: nothing is called, nothing follows.
    Reject(SequencerError),
    /// The stage has nothing to do under this configuration and counts as
    /// having succeeded.
    Skip,
    /// The stage calls this collaborator, and no other.
    Invoke(Collaborator),
}

/// A plan as a mathematical value.
pub enum PlanView {
    Reject(Failure),
    Skip,
    Invoke(Collaborator),
}

impl View for Plan {
    type V = PlanView;

    open spec fn view(&self) -> PlanView {
        match self {
            Plan::Reject(error) => PlanView::Reject(error@),
            Plan::Skip => PlanView::Skip,
            Plan::Invoke(collaborator) => PlanView::Invoke(*collaborator),
        }
    }
}

/// What comes after a stage has reported.
#[derive(Debug, PartialEq, Eq)]
pub enum Next {
    /// The run has failed with this error; no process takes over.
    Failed(SequencerError),
    /// The last stage has succeeded; no process takes over.
    Complete,
    /// The stage has succeeded and another one is left: the process is to be
    /// replaced by this request.
    Chain(ExecutionRequest),
}

/// What comes after a stage, as a mathematical value.
pub enum NextView {
    Failed(Failure),
    Complete,
    Chain(RequestView),
}

impl View for Next {
    type V = NextView;

    open spec fn view(&self) -> NextView {
        match self {
            Next::Failed(error) => NextView::Failed(error@),
            Next::Complete => NextView::Complete,
            Next::Chain(request) => NextView::Chain(request@),
        }
    }
}

/// What a stage reported: success, or the message of its failure.
pub open spec fn outcome_view(outcome: Result<(), String>) -> Result<(), Seq<char>> {
    match outcome {
        Ok(_) => Ok(()),
        Err(message) => Err(message@),
    }
}

/// The plan for a configuration. A stage number that names no stage is
/// rejected. Otherwise the plan is that of the one stage the number names:
/// to call its collaborator, or to skip where it calls none.
pub open spec fn plan_for(config: Config) -> PlanView {
    if !known_stage(config.stage as nat) {
        PlanView::Reject(unknown_stage(config.stage as nat))
    } else {
        match stage_at(config.stage as nat).spec_collaborator(config) {
            Some(collaborator) => PlanView::Invoke(collaborator),
            None => PlanView::Skip,
        }
    }
}

/// What comes after the stage of `config` has reported `outcome`. A failure
/// of the stage is the failure of the run, with the stage's own message.
/// After a success the run is complete if the stage was the last one;
/// otherwise `program` is started again for the stage one higher, with the
/// debug flag carried over. A configuration that names no stage has nothing
/// to follow and fails as it does in the plan.
pub open spec fn next_for(
    config: Config,
    program: Seq<char>,
    outcome: Result<(), Seq<char>>,
) -> NextView {
    if !known_stage(config.stage as nat) {
        NextView::Failed(unknown_stage(config.stage as nat))
    } else {
        match outcome {
            Err(message) => NextView::Failed(Failure::StageFailure(message)),
            Ok(_) => if last_stage(config.stage as nat) {
                NextView::Complete
            } else {
                NextView::Chain(chain_request(program, config))
            },
        }
    }
}

/// Decides what the process does for its stage.
pub fn plan(config: &Config) -> (decided: Plan)
    ensures
        decided@ == plan_for(*config),
{
    match select(config) {
        Err(error) => Plan::Reject(error),
        Ok(stage) => match stage.collaborator(*config) {
            Some(collaborator) => Plan::Invoke(collaborator),
            None => Plan::Skip,
        },
    }
}

/// Decides what comes after the stage has reported `outcome`.
pub fn follow(config: &Config, program: &str, outcome: Result<(), String>) -> (decided: Next)
    ensures
        decided@ == next_for(*config, program@, outcome_view(outcome)),
{
    match select(config) {
        Err(error) => Next::Failed(error),
        Ok(_) => match outcome {
            Err(message) => Next::Failed(SequencerError::StageFailure(message)),
            Ok(_) => {
                if config.stage >= STAGE_COUNT {
                    Next::Complete
                } else {
                    Next::Chain(ExecutionRequest::new(program, config.stage + 1, config.debug))
                }
            },
        },
    }
}

/// The error of a hand-over that came back: the stage had succeeded, but the
/// next process did not take over. `message` says why.
pub fn replacement_failed(message: String) -> (error: SequencerError)
    ensures
        error@ == Failure::ChainFailure(message@),
{
    SequencerError::ChainFailure(message)
}

/// Whether `outcome` is something that the stage of `config` can have
/// reported, given the operations that stand for the collaborators: success
/// for a stage that is skipped, and else whatever the one collaborator of the
/// plan can return when it is called with `config`.
pub open spec fn stage_reports<U, I, B>(
    config: Config,
    update: U,
    install: I,
    bootstrap: B,
    outcome: Result<(), String>,
) -> bool where
    U: FnOnce(Config) -> Result<(), String>,
    I: FnOnce(Config) -> Result<(), String>,
    B: FnOnce(Config) -> Result<(), String>,
 {
    match plan_for(config) {
        PlanView::Reject(_) => false,
        PlanView::Skip => outcome is Ok,
        PlanView::Invoke(Collaborator::Update) => update.ensures((config,), outcome),
        PlanView::Invoke(Collaborator::Install) => install.ensures((config,), outcome),
        PlanView::Invoke(Collaborator::Bootstrap) => bootstrap.ensures((config,), outcome),
    }
}

/// Whether `result` is how a run ends that is to go on with `next`, given the
/// operation that replaces the process. A failure ends the run with its
/// error, completion with success. A hand-over that comes back ends the run
/// with the error that `replace` returned for the request it was given.
pub open spec fn run_ends<X>(next: NextView, replace: X, result: Result<(), SequencerError>) -> bool where
    X: FnOnce(ExecutionRequest) -> String,
 {
    match next {
        NextView::Failed(failure) => result is Err && result->Err_0@ == failure,
        NextView::Complete => result is Ok,
        NextView::Chain(wanted) => exists|request: ExecutionRequest, message: String|
            request@ == wanted && #[trigger] replace.ensures((request,), message) && result is Err
                && result->Err_0@ == Failure::ChainFailure(message@),
    }
}

/// Whether `result` is how a run under `config` can end, given the
/// operations it is handed.
pub open spec fn run_result<U, I, B, X>(
    config: Config,
    program: Seq<char>,
    update: U,
    install: I,
    bootstrap: B,
    replace: X,
    result: Result<(), SequencerError>,
) -> bool where
    U: FnOnce(Config) -> Result<(), String>,
    I: FnOnce(Config) -> Result<(), String>,
    B: FnOnce(Config) -> Result<(), String>,
    X: FnOnce(ExecutionRequest) -> String,
 {
    match plan_for(config) {
        PlanView::Reject(failure) => result is Err && result->Err_0@ == failure,
        _ => exists|outcome: Result<(), String>| #[trigger]
            stage_reports(config, update, install, bootstrap, outcome) && run_ends(
                next_for(config, program, outcome_view(outcome)),
                replace,
                result,
            ),
    }
}

/// Carries out what [`follow`] decided.
fn settle<X>(next: Next, replace: X) -> (result: Result<(), SequencerError>) where
    X: FnOnce(ExecutionRequest) -> String,

    requires
        forall|request: ExecutionRequest|
            next@ == NextView::Chain(request@) ==> replace.requires((request,)),
    ensures
        run_ends(next@, replace, result),
{
    match next {
        Next::Failed(error) => Err(error),
        Next::Complete => Ok(()),
        Next::Chain(request) => {
            assert(next@ == NextView::Chain(request@));
            let message = replace(request);
            Err(replacement_failed(message))
        },
    }
}

/// Runs the stage that `config` asks for and hands over to the next one.
///
/// `update`, `install` and `bootstrap` stand for the three collaborators;
/// each is called with `config` and returns success or the message of its
/// failure. `replace` replaces the running process by the one it is handed,
/// and returns only where that did not work, with the reason. `program` is
/// the path of the running binary.
///
/// A stage number that names no stage fails the run before anything is
/// called. Otherwise exactly the collaborator of the plan is called, or none
/// where the stage is skipped. A failure of the stage is returned unchanged.
/// After the last stage the run returns success, without a hand-over. After
/// any other stage `replace` is called once, with the request for the stage
/// one higher; if it returns, its message is the run's error.
pub fn run<U, I, B, X>(
    config: &Config,
    program: &str,
    update: U,
    install: I,
    bootstrap: B,
    replace: X,
) -> (result: Result<(), SequencerError>) where
    U: FnOnce(Config) -> Result<(), String>,
    I: FnOnce(Config) -> Result<(), String>,
    B: FnOnce(Config) -> Result<(), String>,
    X: FnOnce(ExecutionRequest) -> String,

    requires
        plan_for(*config) == PlanView::Invoke(Collaborator::Update) ==> update.requires((*config,)),
        plan_for(*config) == PlanView::Invoke(Collaborator::Install) ==> install.requires(
            (*config,),
        ),
        plan_for(*config) == PlanView::Invoke(Collaborator::Bootstrap) ==> bootstrap.requires(
            (*config,),
        ),
        forall|request: ExecutionRequest|
            known_stage(config.stage as nat) && !last_stage(config.stage as nat) && request@
                == chain_request(program@, *config) ==> replace.requires((request,)),
    ensures
        run_result(*config, program@, update, install, bootstrap, replace, result),
{
    let outcome: Result<(), String> = match plan(config) {
        Plan::Reject(error) => {
            return Err(error);
        },
        Plan::Skip => Ok(()),
        Plan::Invoke(Collaborator::Update) => update(*config),
        Plan::Invoke(Collaborator::Install) => install(*config),
        Plan::Invoke(Collaborator::Bootstrap) => bootstrap(*config),
    };
    assert(stage_reports(*config, update, install, bootstrap, outcome));
    settle(follow(config, program, outcome), replace)
}

} // verus!
