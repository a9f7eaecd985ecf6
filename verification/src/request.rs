//! The command line with which the next process is started.

use crate::config::Config;
use crate::decimal::{
    decimal, decimal_value, format_decimal, lemma_decimal_digits, lemma_decimal_value,
};
use vstd::prelude::*;

verus! {

/// The program and the arguments of the process that takes over for the next
/// stage. It is made only when there is a next stage, and used at once.
#[derive(Debug, PartialEq, Eq)]
pub struct ExecutionRequest {
    /// The binary to start.
    pub program: String,
    /// Its arguments, without the program's own name in front.
    pub args: Vec<String>,
}

/// A request as a mathematical value.
pub struct RequestView {
    pub program: Seq<char>,
    pub args: Seq<Seq<char>>,
}

impl View for ExecutionRequest {
    type V = RequestView;

    open spec fn view(&self) -> RequestView {
        RequestView { program: self.program@, args: self.args.deep_view() }
    }
}

/// The flag that is followed by the stage number.
pub open spec fn stage_flag() -> Seq<char> {
    "-s"@
}

/// The flag that turns a run into a debug run.
pub open spec fn debug_flag() -> Seq<char> {
    "-d"@
}

/// The arguments that ask for stage `stage`: the stage flag, the number in
/// decimal, and the debug flag if and only if `debug` holds.
pub open spec fn chain_args(stage: nat, debug: bool) -> Seq<Seq<char>> {
    if debug {
        seq![stage_flag(), decimal(stage), debug_flag()]
    } else {
        seq![stage_flag(), decimal(stage)]
    }
}

/// The request that hands over from a run under `config` to the stage after
/// it: the same program, the next stage number, and the debug flag carried
/// over as it is.
pub open spec fn chain_request(program: Seq<char>, config: Config) -> RequestView {
    RequestView { program, args: chain_args((config.stage + 1) as nat, config.debug) }
}

impl RequestView {
    /// The stage number that the arguments carry behind the stage flag.
    pub open spec fn stage(self) -> nat
        recommends
            self.args.len() >= 2,
    {
        decimal_value(self.args[1])
    }

    /// Whether the arguments hold the debug flag.
    pub open spec fn debug(self) -> bool {
        self.args.contains(debug_flag())
    }
}

/// The two flags differ from each other and from every decimal number.
pub proof fn lemma_flags_distinct(n: nat)
    ensures
        stage_flag() != debug_flag(),
        decimal(n) != debug_flag(),
        decimal(n) != stage_flag(),
{
    reveal_strlit("-s");
    reveal_strlit("-d");
    assert(stage_flag()[1] == 's');
    assert(debug_flag()[1] == 'd');
    lemma_decimal_digits(n);
}

/// What the arguments for a stage say when they are read back: the stage
/// number they were made for, and the debug flag exactly when it was set.
pub proof fn lemma_chain_args_read_back(program: Seq<char>, stage: nat, debug: bool)
    ensures
        (RequestView { program, args: chain_args(stage, debug) }).stage() == stage,
        (RequestView { program, args: chain_args(stage, debug) }).debug() == debug,
{
    lemma_decimal_value(stage);
    lemma_flags_distinct(stage);
}

impl ExecutionRequest {
    /// Builds the request that starts `program` for stage `stage`.
    pub fn new(program: &str, stage: u32, debug: bool) -> (request: ExecutionRequest)
        ensures
            request@ == (RequestView { program: program@, args: chain_args(stage as nat, debug) }),
    {
        let mut args: Vec<String> = Vec::new();
        args.push(String::from_str("-s"));
        args.push(format_decimal(stage));
        if debug {
            args.push(String::from_str("-d"));
        }
        let request = ExecutionRequest { program: String::from_str(program), args };
        assert(request.args.deep_view() =~= chain_args(stage as nat, debug));
        request
    }
}

} // verus!
