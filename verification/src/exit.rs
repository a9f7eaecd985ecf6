//! How a run is reported when the process ends.

use crate::error::{Failure, SequencerError};
use vstd::prelude::*;

verus! {

/// The exit code of a run that went through.
pub const EXIT_SUCCESS: i32 = 0;

/// The exit code of a run that failed, whatever the failure.
pub const EXIT_FAILURE: i32 = 1;

/// What the process leaves behind: its exit code and, for a failed run, the
/// one line that goes to the error stream.
#[derive(Debug, PartialEq, Eq)]
pub struct ExitReport {
    pub code: i32,
    pub error: Option<String>,
}

/// An exit report as a mathematical value.
pub struct ExitView {
    pub code: int,
    pub error: Option<Seq<char>>,
}

impl View for ExitReport {
    type V = ExitView;

    open spec fn view(&self) -> ExitView {
        ExitView {
            code: self.code as int,
            error: match self.error {
                Some(line) => Some(line@),
                None => None,
            },
        }
    }
}

/// How a run that ended with `result` is reported: code 0 and no output for
/// success, code 1 and the failure's message for every failure.
pub open spec fn exit_for(result: Result<(), Failure>) -> ExitView {
    match result {
        Ok(_) => ExitView { code: 0, error: None },
        Err(failure) => ExitView { code: 1, error: Some(failure.message()) },
    }
}

/// The result of a run, as a mathematical value.
pub open spec fn result_view(result: Result<(), SequencerError>) -> Result<(), Failure> {
    match result {
        Ok(_) => Ok(()),
        Err(error) => Err(error@),
    }
}

/// Says how a run that ended with `result` is reported.
pub fn exit_report(result: &Result<(), SequencerError>) -> (report: ExitReport)
    ensures
        report@ == exit_for(result_view(*result)),
{
    match result {
        Ok(_) => ExitReport { code: EXIT_SUCCESS, error: None },
        Err(error) => ExitReport { code: EXIT_FAILURE, error: Some(error.message()) },
    }
}

} // verus!
