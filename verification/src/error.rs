//! The ways in which a run can fail.

use crate::decimal::{decimal, format_decimal};
use vstd::prelude::*;

verus! {

/// Why a run failed.
#[derive(Debug, PartialEq, Eq)]
pub enum SequencerError {
    /// The requested stage number names no stage; `supported` is the number of
    /// stages there are.
    UnknownStage { stage: u32, supported: u32 },
    /// The stage itself failed; the text is the collaborator's own message.
    StageFailure(String),
    /// The stage succeeded, but handing over to the next process did not; the
    /// text is the message of the failed hand-over.
    ChainFailure(String),
}

/// A failure as a mathematical value: numbers as they are, messages as
/// sequences of characters.
pub enum Failure {
    UnknownStage { stage: nat, supported: nat },
    StageFailure(Seq<char>),
    ChainFailure(Seq<char>),
}

impl View for SequencerError {
    type V = Failure;

    open spec fn view(&self) -> Failure {
        match self {
            SequencerError::UnknownStage { stage, supported } => Failure::UnknownStage {
                stage: *stage as nat,
                supported: *supported as nat,
            },
            SequencerError::StageFailure(message) => Failure::StageFailure(message@),
            SequencerError::ChainFailure(message) => Failure::ChainFailure(message@),
        }
    }
}

impl Failure {
    /// The line that reports the failure. An unknown stage is reported with
    /// the requested number and the number of stages there are; the other two
    /// failures are reported by the message they carry, unchanged.
    pub open spec fn message(self) -> Seq<char> {
        match self {
            Failure::UnknownStage { stage, supported } => "unknown stage '"@ + decimal(stage)
                + "' only "@ + decimal(supported) + " stage(s) are supported"@,
            Failure::StageFailure(message) => message,
            Failure::ChainFailure(message) => message,
        }
    }
}

impl SequencerError {
    /// The line that reports this failure.
    pub fn message(&self) -> (text: String)
        ensures
            text@ == self@.message(),
    {
        match self {
            SequencerError::UnknownStage { stage, supported } => {
                let mut text = String::from_str("unknown stage '");
                text.append(format_decimal(*stage).as_str());
                text.append("' only ");
                text.append(format_decimal(*supported).as_str());
                text.append(" stage(s) are supported");
                text
            },
            SequencerError::StageFailure(message) => message.clone(),
            SequencerError::ChainFailure(message) => message.clone(),
        }
    }
}

} // verus!
