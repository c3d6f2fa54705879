//! Matching a request to its tool, validating its arguments, running the
//! handler and packaging the outcome.

use vstd::prelude::*;
use crate::args::{
    arg_value, args_valid, field_problem, first_violation, problem_message, validate_arguments,
    ArgValue, Argument,
};
use crate::registry::{holds_name, Registry};
use crate::response::{ErrorKind, Response, ToolError};

verus! {

/// A tool's behaviour: given arguments that satisfy its schema, produce a
/// textual result or a failure message.
pub trait ToolHandler {
    /// `outcome` is an answer this handler may give to `args`. A handler that
    /// says nothing of its answers may give any.
    open spec fn answers(&self, args: Seq<Argument>, outcome: Result<String, String>) -> bool {
        true
    }

    fn call(&self, args: &Vec<Argument>) -> (r: Result<String, String>)
        ensures
            self.answers(args@, r),
    ;
}

/// One inbound call: the tool's name and its untyped arguments.
pub struct Request {
    pub tool_name: String,
    pub arguments: Vec<Argument>,
}

/// `r` is a failure of kind `k` with message `m`.
pub open spec fn is_failure(r: Response, k: ErrorKind, m: Seq<char>) -> bool {
    r matches Response::Failure(e) && e.kind == k && e.message@ == m
}

pub open spec fn unknown_tool_message(name: Seq<char>) -> Seq<char> {
    "unknown tool: "@ + name
}

/// What a handler's outcome becomes: its result, or a handler failure that
/// carries its message.
pub open spec fn packaged(r: Response, outcome: Result<String, String>) -> bool {
    match outcome {
        Ok(t) => r matches Response::Success(x) && x@ == t@,
        Err(m) => is_failure(r, ErrorKind::HandlerError, m@),
    }
}

/// Turns a handler's outcome into a response.
pub fn package(outcome: Result<String, String>) -> (r: Response)
    ensures
        packaged(r, outcome),
{
    match outcome {
        Ok(t) => Response::Success(t),
        Err(m) => Response::Failure(ToolError { kind: ErrorKind::HandlerError, message: m }),
    }
}

/// Answers a request: an unknown-tool failure where no tool has its name, an
/// invalid-arguments failure naming the first unsatisfied field, and otherwise
/// the handler's outcome packaged.
pub fn dispatch<H: ToolHandler>(reg: &Registry<H>, req: &Request) -> (r: Response)
    requires
        reg.wf(),
    ensures
        !holds_name(reg.tools(), req.tool_name@)
            ==> is_failure(r, ErrorKind::UnknownTool, unknown_tool_message(req.tool_name@)),
        forall|i: int| 0 <= i < reg.tools().len() && (#[trigger] reg.tools()[i]).name@ == req.tool_name@
            ==> {
                let fields = reg.tools()[i].input_schema.fields@;
                &&& !args_valid(fields, req.arguments@) ==> exists|k: int|
                    first_violation(fields, req.arguments@, k) && is_failure(
                        r,
                        ErrorKind::InvalidArguments,
                        problem_message(fields[k].name@, field_problem(fields[k], req.arguments@)->Some_0),
                    )
                &&& args_valid(fields, req.arguments@) ==> exists|o: Result<String, String>|
                    reg.handlers()[i].answers(req.arguments@, o) && packaged(r, o)
            },
{
    match reg.lookup(req.tool_name.as_str()) {
        Err(_) => {
            let mut m = String::from_str("unknown tool: ");
            m.append(req.tool_name.as_str());
            Response::Failure(ToolError { kind: ErrorKind::UnknownTool, message: m })
        },
        Ok((d, h)) => {
            proof {
                let j = choose|j: int| 0 <= j < reg.tools().len() && reg.tools()[j] == *d
                    && reg.handlers()[j] == *h && d.name@ == req.tool_name@;
                assert forall|i: int| 0 <= i < reg.tools().len()
                    && (#[trigger] reg.tools()[i]).name@ == req.tool_name@ implies i == j by {
                    if i != j {
                        assert(reg.tools()[i].name@ != reg.tools()[j].name@);
                    }
                }
            }
            match validate_arguments(&d.input_schema.fields, &req.arguments) {
                Err(e) => Response::Failure(ToolError { kind: ErrorKind::InvalidArguments, message: e.message() }),
                Ok(()) => {
                    let outcome = h.call(&req.arguments);
                    package(outcome)
                },
            }
        },
    }
}

/// A tool without fields accepts any arguments, the empty ones included.
pub proof fn lemma_no_fields_accept(args: Seq<Argument>)
    ensures
        args_valid(Seq::empty(), args),
{
}

/// What the greeting answers: the greeting text where `message` is text, a
/// failure otherwise.
pub open spec fn greeting_answer(args: Seq<Argument>, outcome: Result<String, String>) -> bool {
    match arg_value(args, "message"@) {
        Some(ArgValue::Text(m)) => outcome matches Ok(t) && t@ == "Hello World MCP! "@ + m@,
        _ => outcome is Err,
    }
}

/// The greeting: `Hello World MCP! ` followed by the `message` argument.
pub fn greet(args: &Vec<Argument>) -> (r: Result<String, String>)
    ensures
        greeting_answer(args@, r),
{
    match crate::args::find_arg(args, "message") {
        Some(ArgValue::Text(m)) => {
            let mut t = String::from_str("Hello World MCP! ");
            t.append(m.as_str());
            Ok(t)
        },
        _ => Err(String::from_str("message must be a string")),
    }
}

/// The greeting tool's handler.
pub struct GreetingTool;

impl ToolHandler for GreetingTool {
    open spec fn answers(&self, args: Seq<Argument>, outcome: Result<String, String>) -> bool {
        greeting_answer(args, outcome)
    }

    fn call(&self, args: &Vec<Argument>) -> (r: Result<String, String>) {
        greet(args)
    }
}

} // verus!
