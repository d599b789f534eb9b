//! The values that a transport carries to and from the script host.

use crate::scripting::{script_verdict, FailureKind, ScriptEngine, ScriptError, ScriptFault};
use vstd::prelude::*;

verus! {

/// Text of the answer to a script that ran to its end.
pub const SCRIPT_SUCCESS_MESSAGE: &'static str = "Script executed successfully";

/// A request to run a script.
#[derive(Debug)]
pub struct ScriptRequest {
    pub script: String,
}

/// The answer to a request: whether it succeeded, and what it produced.
#[derive(Debug)]
pub struct ApiResponse<T> {
    pub success: bool,
    pub data: T,
}

/// What the answer to a script request says, given the outcome of the run:
/// the success flag and the text.
pub open spec fn script_answer(outcome: Result<(), ScriptFault>) -> (bool, Seq<char>) {
    match outcome {
        Ok(()) => (true, SCRIPT_SUCCESS_MESSAGE@),
        Err(fault) => (false, fault.message()),
    }
}

/// The answer to a script request whose run ended in `outcome`: success with
/// a fixed text, or failure with the interpreter's description of it.
pub fn script_response(outcome: Result<(), ScriptError>) -> (response: ApiResponse<String>)
    ensures
        (response.success, response.data@) == script_answer(
            match outcome {
                Ok(()) => Ok(()),
                Err(error) => Err(error@),
            },
        ),
{
    match outcome {
        Ok(()) => ApiResponse { success: true, data: SCRIPT_SUCCESS_MESSAGE.to_owned() },
        Err(error) => ApiResponse { success: false, data: error.message() },
    }
}

/// What a run makes of the verdict on a script: success, or the fault that
/// the failure amounts to.
pub open spec fn verdict_outcome(verdict: Option<(FailureKind, Seq<char>)>) -> Result<
    (),
    ScriptFault,
> {
    match verdict {
        None => Ok(()),
        Some((kind, message)) => Err(ScriptFault::classify(kind, message)),
    }
}

/// Runs the script of `request` on `engine` and answers as
/// [`script_response`] does for the run's outcome: with what
/// [`script_answer`] says for the verdict on the script.
pub fn run_script(engine: &ScriptEngine, request: &ScriptRequest) -> (response: ApiResponse<String>)
    ensures
        (response.success, response.data@) == script_answer(
            verdict_outcome(script_verdict(request.script@)),
        ),
{
    script_response(engine.run(request.script.as_str()))
}

} // verus!
