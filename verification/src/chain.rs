//! The chain of processes that one bootstrap is made of.
//!
//! Every process of the chain runs one stage. Seen from outside, the chain is
//! a small state machine: it stands at a stage, and the report of that stage
//! moves it to the stage one higher, to completion, or to failure. This file
//! holds that machine and what is proved of it and of the sequencer's
//! decisions.

use crate::config::Config;
use crate::error::{Failure, SequencerError};
use crate::request::{chain_request, debug_flag, lemma_chain_args_read_back, ExecutionRequest};
use crate::sequencer::{next_for, plan_for, run_ends, stage_reports, NextView, PlanView};
use crate::stage::{known_stage, last_stage, stage_table, unknown_stage, Collaborator};
use vstd::prelude::*;

verus! {

/// Where a chain stands.
pub enum State {
    /// The process for this stage is the current one.
    Stage(nat),
    /// The last stage has succeeded.
    Complete,
    /// A stage has failed, or never began. Nothing follows.
    Failed,
}

/// Where a chain begins: at the stage that the configuration names, and in
/// failure if it names none.
pub open spec fn initial_state(config: Config) -> State {
    if known_stage(config.stage as nat) {
        State::Stage(config.stage as nat)
    } else {
        State::Failed
    }
}

/// Where the report of the current stage takes a chain.
pub open spec fn step(state: State, succeeded: bool) -> State {
    match state {
        State::Stage(number) => if !succeeded {
            State::Failed
        } else if last_stage(number) {
            State::Complete
        } else {
            State::Stage(number + 1)
        },
        State::Complete => State::Complete,
        State::Failed => State::Failed,
    }
}

/// Where a chain stands after `count` stages in a row have succeeded.
pub open spec fn after_successes(state: State, count: nat) -> State
    decreases count,
{
    if count == 0 {
        state
    } else {
        after_successes(step(state, true), (count - 1) as nat)
    }
}

/// Where the decision that follows a stage leaves the chain.
pub open spec fn state_of(next: NextView) -> State {
    match next {
        NextView::Failed(_) => State::Failed,
        NextView::Complete => State::Complete,
        NextView::Chain(request) => State::Stage(request.stage()),
    }
}

/// A chain only moves forward, and by one stage at a time: from a stage it
/// goes to the stage one higher and to no other, so that no stage is run
/// twice and none is left out.
pub proof fn lemma_step_advances_by_one(number: nat, succeeded: bool)
    ensures
        step(State::Stage(number), succeeded) matches State::Stage(reached) ==> reached == number
            + 1,
        !succeeded ==> step(State::Stage(number), succeeded) == State::Failed,
        step(State::Complete, succeeded) == State::Complete,
        step(State::Failed, succeeded) == State::Failed,
{
}

/// A chain that stands at a known stage and whose stages all succeed is
/// complete once the stages from that one to the last have run, and not
/// before.
pub proof fn lemma_chain_completes(number: nat)
    requires
        known_stage(number),
    ensures
        after_successes(State::Stage(number), (stage_table().len() - number + 1) as nat)
            == State::Complete,
        forall|count: nat|
            count <= stage_table().len() - number ==> #[trigger] after_successes(
                State::Stage(number),
                count,
            ) == State::Stage(number + count),
{
    reveal_with_fuel(after_successes, 5);
}

/// The decision that follows a stage is the step of the chain: for every
/// configuration, program and report, the chain that began with the
/// configuration is left where its step puts it.
pub proof fn lemma_follow_is_step(config: Config, program: Seq<char>, outcome: Result<(), Seq<char>>)
    ensures
        state_of(next_for(config, program, outcome)) == step(initial_state(config), outcome is Ok),
{
    if known_stage(config.stage as nat) && outcome is Ok && !last_stage(config.stage as nat) {
        lemma_chain_args_read_back(program, (config.stage + 1) as nat, config.debug);
    }
}

/// A stage number that names a stage selects the entry of the table at the
/// index one below it, and the plan holds what that entry does and nothing
/// else: the first stage brings the binary up to date, the second installs,
/// the third starts the services.
pub proof fn lemma_plan_follows_table(config: Config)
    requires
        known_stage(config.stage as nat),
    ensures
        plan_for(config) == match stage_table()[config.stage - 1].spec_collaborator(config) {
            Some(collaborator) => PlanView::Invoke(collaborator),
            None => PlanView::Skip,
        },
        config.stage == 1 && !config.debug ==> plan_for(config) == PlanView::Invoke(
            Collaborator::Update,
        ),
        config.stage == 2 ==> plan_for(config) == PlanView::Invoke(Collaborator::Install),
        config.stage == 3 ==> plan_for(config) == PlanView::Invoke(Collaborator::Bootstrap),
{
}

/// A stage number below 1 or above the number of stages fails the run as an
/// unknown stage, whatever else the configuration holds: the plan calls no
/// collaborator, and whatever a stage might report, nothing is handed over.
pub proof fn lemma_unknown_stage_does_nothing(
    config: Config,
    program: Seq<char>,
    outcome: Result<(), Seq<char>>,
)
    requires
        config.stage < 1 || config.stage > stage_table().len(),
    ensures
        plan_for(config) == PlanView::Reject(unknown_stage(config.stage as nat)),
        next_for(config, program, outcome) == NextView::Failed(unknown_stage(config.stage as nat)),
        unknown_stage(config.stage as nat) == (Failure::UnknownStage {
            stage: config.stage as nat,
            supported: 3,
        }),
{
}

/// After a stage that is not the last has succeeded, the process is handed
/// over once: to the same program, for the stage one higher, which is a
/// known stage again.
pub proof fn lemma_success_hands_over(config: Config, program: Seq<char>)
    requires
        known_stage(config.stage as nat),
        !last_stage(config.stage as nat),
    ensures
        next_for(config, program, Ok(())) == NextView::Chain(chain_request(program, config)),
        chain_request(program, config).program == program,
        chain_request(program, config).stage() == config.stage + 1,
        known_stage(chain_request(program, config).stage()),
{
    lemma_chain_args_read_back(program, (config.stage + 1) as nat, config.debug);
}

/// After the last stage has succeeded nothing is handed over, and the run
/// ends in success whatever the operation that replaces the process would do.
pub proof fn lemma_last_stage_completes<X>(
    config: Config,
    program: Seq<char>,
    replace: X,
    result: Result<(), SequencerError>,
) where X: FnOnce(ExecutionRequest) -> String
    requires
        last_stage(config.stage as nat),
        run_ends(next_for(config, program, Ok(())), replace, result),
    ensures
        next_for(config, program, Ok(())) == NextView::Complete,
        result is Ok,
{
}

/// The debug flag is carried over as it is: the request that hands over from
/// a debug run holds the debug flag, and the request from any other run does
/// not.
pub proof fn lemma_debug_is_forwarded(config: Config, program: Seq<char>)
    ensures
        chain_request(program, config).args.contains(debug_flag()) == config.debug,
        chain_request(program, config).debug() == config.debug,
{
    lemma_chain_args_read_back(program, (config.stage + 1) as nat, config.debug);
}

/// The first stage of a debug run calls no collaborator and reports success;
/// the first stage of any other run calls the update collaborator, and what
/// it reports is what that collaborator returned.
pub proof fn lemma_self_update_gating<U, I, B>(
    config: Config,
    update: U,
    install: I,
    bootstrap: B,
    outcome: Result<(), String>,
) where
    U: FnOnce(Config) -> Result<(), String>,
    I: FnOnce(Config) -> Result<(), String>,
    B: FnOnce(Config) -> Result<(), String>,

    requires
        config.stage == 1,
    ensures
        config.debug ==> plan_for(config) == PlanView::Skip,
        config.debug ==> (stage_reports(config, update, install, bootstrap, outcome)
            <==> outcome is Ok),
        !config.debug ==> plan_for(config) == PlanView::Invoke(Collaborator::Update),
        !config.debug ==> (stage_reports(config, update, install, bootstrap, outcome)
            <==> update.ensures((config,), outcome)),
{
}

} // verus!
