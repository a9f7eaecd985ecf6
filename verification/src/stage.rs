//! The stages, their fixed order, and what each of them does.

use crate::config::Config;
use crate::error::{Failure, SequencerError};
use vstd::prelude::*;

verus! {

/// One unit of bootstrap work.
#[derive(Clone, Copy, Debug, PartialEq, Eq, Structural)]
pub enum Stage {
    /// Bring the bootstrap binary itself up to date.
    SelfUpdate,
    /// Install the system binaries.
    Install,
    /// Install and start the services.
    Bootstrap,
}

/// An operation that lives outside the sequencer and does the work of a stage.
#[derive(Clone, Copy, Debug, PartialEq, Eq, Structural)]
pub enum Collaborator {
    Update,
    Install,
    Bootstrap,
}

/// How many stages there are.
pub const STAGE_COUNT: u32 = 3;

/// The stages in the order in which they run. Stage number `s` is the entry at
/// index `s - 1`.
pub open spec fn stage_table() -> Seq<Stage> {
    seq![Stage::SelfUpdate, Stage::Install, Stage::Bootstrap]
}

/// Whether `number` names a stage.
pub open spec fn known_stage(number: nat) -> bool {
    1 <= number <= stage_table().len()
}

/// The stage that `number` names.
pub open spec fn stage_at(number: nat) -> Stage
    recommends
        known_stage(number),
{
    stage_table()[number - 1]
}

/// Whether `number` names the last stage.
pub open spec fn last_stage(number: nat) -> bool {
    number == stage_table().len()
}

/// The failure that reports `number` as naming no stage.
pub open spec fn unknown_stage(number: nat) -> Failure {
    Failure::UnknownStage { stage: number, supported: stage_table().len() }
}

impl Stage {
    /// The collaborator that this stage calls under `config`, if it calls one.
    /// Bringing the binary up to date is left out of a debug run, so that a
    /// binary under test is not replaced; every other stage calls its
    /// collaborator whatever the configuration.
    pub open spec fn spec_collaborator(self, config: Config) -> Option<Collaborator> {
        match self {
            Stage::SelfUpdate => if config.debug {
                None
            } else {
                Some(Collaborator::Update)
            },
            Stage::Install => Some(Collaborator::Install),
            Stage::Bootstrap => Some(Collaborator::Bootstrap),
        }
    }

    #[verifier::when_used_as_spec(spec_collaborator)]
    pub fn collaborator(self, config: Config) -> (called: Option<Collaborator>)
        ensures
            called == self.spec_collaborator(config),
    {
        match self {
            Stage::SelfUpdate => {
                if config.debug {
                    None
                } else {
                    Some(Collaborator::Update)
                }
            },
            Stage::Install => Some(Collaborator::Install),
            Stage::Bootstrap => Some(Collaborator::Bootstrap),
        }
    }
}

/// The stages in the order in which they run.
pub fn stages() -> (table: [Stage; 3])
    ensures
        table@ == stage_table(),
{
    [Stage::SelfUpdate, Stage::Install, Stage::Bootstrap]
}

/// Picks the stage that a configuration asks for: the entry of the table at
/// index `stage - 1`. A number below 1 or above the number of stages names
/// none and is refused.
pub fn select(config: &Config) -> (selected: Result<Stage, SequencerError>)
    ensures
        known_stage(config.stage as nat) ==> selected == Ok::<Stage, SequencerError>(
            stage_at(config.stage as nat),
        ),
        !known_stage(config.stage as nat) ==> selected is Err && selected->Err_0@ == unknown_stage(
            config.stage as nat,
        ),
{
    let table = stages();
    if config.stage < 1 || config.stage > STAGE_COUNT {
        return Err(SequencerError::UnknownStage { stage: config.stage, supported: STAGE_COUNT });
    }
    let index: usize = (config.stage - 1) as usize;
    Ok(table[index])
}

} // verus!
