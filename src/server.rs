//! What the server advertises: its instructions and the tools it ships.

use vstd::prelude::*;
use crate::args::Argument;
use crate::dispatch::{greeting_answer, packaged, GreetingTool, ToolHandler};
use crate::registry::ToolDescriptor;
use crate::report::{render_report, report_text, SystemSnapshot};
use crate::response::Response;
use crate::schema::{generate_schema, FieldKind, FieldSpec, ParamShape};

verus! {

/// What the server announces once a caller connects.
pub struct ServerAdvert {
    pub instructions: String,
    pub tools_enabled: bool,
}

pub open spec fn instructions_text() -> Seq<char> {
    "A system utilities MCP that provides detailed system information."@
}

/// The announcement: the instructions, with the tools capability on.
pub fn server_advert() -> (r: ServerAdvert)
    ensures
        r.instructions@ == instructions_text(),
        r.tools_enabled,
{
    ServerAdvert {
        instructions: String::from_str("A system utilities MCP that provides detailed system information."),
        tools_enabled: true,
    }
}

/// The system-information tool: no parameters.
pub fn system_info_descriptor() -> (r: ToolDescriptor)
    ensures
        r.name@ == "get_system_info"@,
        r.description@ == "Get a detailed system information report including kernel, cores, memory, and disk usage."@,
        r.input_schema.title@ == "GetSystemInfoRequest"@,
        r.input_schema.fields@.len() == 0,
        r.input_schema.dialect is None,
{
    let shape = ParamShape { title: String::from_str("GetSystemInfoRequest"), fields: Vec::new() };
    let schema = generate_schema(shape).unwrap();
    ToolDescriptor {
        name: String::from_str("get_system_info"),
        description: String::from_str(
            "Get a detailed system information report including kernel, cores, memory, and disk usage.",
        ),
        input_schema: schema,
    }
}

/// The greeting tool: one required text field, `message`.
pub fn greeting_descriptor() -> (r: ToolDescriptor)
    ensures
        r.name@ == "greeting"@,
        r.description@ == "Greets the caller with the message it sends."@,
        r.input_schema.title@ == "GreetingRequest"@,
        r.input_schema.fields@.len() == 1,
        r.input_schema.fields@[0].note matches Some(n) && n@ == "the message to send"@,
        r.input_schema.fields@[0].name@ == "message"@,
        r.input_schema.fields@[0].kind == FieldKind::Text,
        r.input_schema.fields@[0].required,
        r.input_schema.dialect is None,
{
    proof {
        reveal_strlit("message");
    }
    let mut fields: Vec<FieldSpec> = Vec::new();
    fields.push(FieldSpec {
        name: String::from_str("message"),
        kind: FieldKind::Text,
        required: true,
        note: Some(String::from_str("the message to send")),
    });
    let shape = ParamShape { title: String::from_str("GreetingRequest"), fields };
    assert(crate::schema::field_ok(shape.fields@, 0));
    let schema = generate_schema(shape).unwrap();
    ToolDescriptor {
        name: String::from_str("greeting"),
        description: String::from_str("Greets the caller with the message it sends."),
        input_schema: schema,
    }
}

/// Where the system-information tool gets its machine facts.
pub trait SnapshotSource {
    fn read_snapshot(&self) -> SystemSnapshot;
}

/// The tools this server ships, with their handlers.
pub enum ShippedTool<S> {
    /// Reports on the machine that `S` reads.
    SystemInfo(S),
    Greeting(GreetingTool),
}

/// What the system-information tool answers: the report of some snapshot,
/// always a success.
pub open spec fn system_info_answer(outcome: Result<String, String>) -> bool {
    outcome matches Ok(t) && exists|s: SystemSnapshot| t@ == report_text(s)
}

impl<S: SnapshotSource> ToolHandler for ShippedTool<S> {
    open spec fn answers(&self, args: Seq<Argument>, outcome: Result<String, String>) -> bool {
        match self {
            ShippedTool::SystemInfo(_) => system_info_answer(outcome),
            ShippedTool::Greeting(_) => greeting_answer(args, outcome),
        }
    }

    fn call(&self, args: &Vec<Argument>) -> (r: Result<String, String>) {
        match self {
            ShippedTool::SystemInfo(source) => {
                let snapshot = source.read_snapshot();
                let report = render_report(&snapshot);
                Ok(report)
            },
            ShippedTool::Greeting(g) => g.call(args),
        }
    }
}

/// The system-information tool never fails: whatever arguments it is given,
/// the packaged answer is a success carrying a report.
pub proof fn lemma_system_info_succeeds<S: SnapshotSource>(
    tool: ShippedTool<S>,
    args: Seq<Argument>,
    outcome: Result<String, String>,
    r: Response,
)
    requires
        tool is SystemInfo,
        tool.answers(args, outcome),
        packaged(r, outcome),
    ensures
        r matches Response::Success(t) && exists|s: SystemSnapshot| t@ == report_text(s),
{
}

} // verus!
