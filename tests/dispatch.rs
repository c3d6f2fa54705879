use sysutils::args::{ArgValue, Argument};
use sysutils::dispatch::{dispatch, greet, package, GreetingTool, Request};
use sysutils::registry::Registry;
use sysutils::response::{ErrorKind, Response};
use sysutils::server::{greeting_descriptor, server_advert, system_info_descriptor, ShippedTool};

fn text_arg(key: &str, value: &str) -> Argument {
    Argument { key: key.to_string(), value: ArgValue::Text(value.to_string()) }
}

fn greeting_registry() -> Registry<GreetingTool> {
    let mut reg = Registry::new();
    assert!(reg.register(greeting_descriptor(), GreetingTool).is_ok());
    reg
}

fn failure(r: &Response) -> (ErrorKind, String) {
    match r {
        Response::Failure(e) => (e.kind, e.message.clone()),
        Response::Success(t) => panic!("expected a failure, got {}", t),
    }
}

#[test]
fn greeting_with_message() {
    let reg = greeting_registry();
    let req = Request { tool_name: "greeting".to_string(), arguments: vec![text_arg("message", "friend")] };
    match dispatch(&reg, &req) {
        Response::Success(t) => assert_eq!(t, "Hello World MCP! friend"),
        Response::Failure(e) => panic!("unexpected failure: {}", e.message),
    }
}

#[test]
fn unknown_tool_is_named() {
    let reg = greeting_registry();
    let req = Request { tool_name: "nonexistent".to_string(), arguments: vec![] };
    let (kind, message) = failure(&dispatch(&reg, &req));
    assert_eq!(kind, ErrorKind::UnknownTool);
    assert!(message.contains("nonexistent"));
    assert_eq!(message, "unknown tool: nonexistent");
}

#[test]
fn missing_message_is_invalid() {
    let reg = greeting_registry();
    let req = Request { tool_name: "greeting".to_string(), arguments: vec![] };
    let (kind, message) = failure(&dispatch(&reg, &req));
    assert_eq!(kind, ErrorKind::InvalidArguments);
    assert_eq!(message, "missing field `message`");
}

#[test]
fn wrong_type_is_invalid() {
    let reg = greeting_registry();
    let req = Request {
        tool_name: "greeting".to_string(),
        arguments: vec![Argument { key: "message".to_string(), value: ArgValue::Int(3) }],
    };
    let (kind, message) = failure(&dispatch(&reg, &req));
    assert_eq!(kind, ErrorKind::InvalidArguments);
    assert_eq!(message, "invalid type for field `message`");
}

#[test]
fn null_for_required_field_is_invalid() {
    let reg = greeting_registry();
    let req = Request {
        tool_name: "greeting".to_string(),
        arguments: vec![Argument { key: "message".to_string(), value: ArgValue::Null }],
    };
    let (kind, _) = failure(&dispatch(&reg, &req));
    assert_eq!(kind, ErrorKind::InvalidArguments);
}

#[test]
fn extra_arguments_are_ignored() {
    let reg = greeting_registry();
    let req = Request {
        tool_name: "greeting".to_string(),
        arguments: vec![text_arg("other", "x"), text_arg("message", "a"), text_arg("message", "b")],
    };
    match dispatch(&reg, &req) {
        Response::Success(t) => assert_eq!(t, "Hello World MCP! a"),
        Response::Failure(e) => panic!("unexpected failure: {}", e.message),
    }
}

#[test]
fn tool_names_are_case_sensitive() {
    let reg = greeting_registry();
    let req = Request { tool_name: "Greeting".to_string(), arguments: vec![text_arg("message", "x")] };
    let (kind, _) = failure(&dispatch(&reg, &req));
    assert_eq!(kind, ErrorKind::UnknownTool);
}

struct Failing;

impl sysutils::dispatch::ToolHandler for Failing {
    fn call(&self, _args: &Vec<Argument>) -> Result<String, String> {
        Err("disk unreadable".to_string())
    }
}

#[test]
fn handler_failure_is_packaged() {
    let mut reg = Registry::new();
    assert!(reg.register(system_info_descriptor(), Failing).is_ok());
    let req = Request { tool_name: "get_system_info".to_string(), arguments: vec![] };
    let (kind, message) = failure(&dispatch(&reg, &req));
    assert_eq!(kind, ErrorKind::HandlerError);
    assert_eq!(message, "disk unreadable");
}

struct Fixed;

impl sysutils::dispatch::ToolHandler for Fixed {
    fn call(&self, _args: &Vec<Argument>) -> Result<String, String> {
        Ok("report".to_string())
    }
}

#[test]
fn zero_parameter_tool_accepts_empty_arguments() {
    let d = system_info_descriptor();
    assert!(d.input_schema.fields.is_empty());
    assert!(d.input_schema.dialect.is_none());
    let mut reg = Registry::new();
    assert!(reg.register(d, Fixed).is_ok());
    let req = Request { tool_name: "get_system_info".to_string(), arguments: vec![] };
    match dispatch(&reg, &req) {
        Response::Success(t) => assert_eq!(t, "report"),
        Response::Failure(e) => panic!("unexpected failure: {}", e.message),
    }
}

#[test]
fn package_maps_outcomes() {
    match package(Ok("done".to_string())) {
        Response::Success(t) => assert_eq!(t, "done"),
        Response::Failure(_) => panic!("expected success"),
    }
    let (kind, message) = failure(&package(Err("boom".to_string())));
    assert_eq!(kind, ErrorKind::HandlerError);
    assert_eq!(message, "boom");
}

#[test]
fn greet_requires_text_message() {
    assert_eq!(greet(&vec![text_arg("message", "you")]).unwrap(), "Hello World MCP! you");
    assert!(greet(&vec![]).is_err());
    assert!(greet(&vec![Argument { key: "message".to_string(), value: ArgValue::Bool(true) }]).is_err());
}

#[test]
fn advert_enables_tools() {
    let a = server_advert();
    assert!(a.tools_enabled);
    assert_eq!(a.instructions, "A system utilities MCP that provides detailed system information.");
}

struct FakeMachine;

impl sysutils::server::SnapshotSource for FakeMachine {
    fn read_snapshot(&self) -> sysutils::report::SystemSnapshot {
        sysutils::report::SystemSnapshot {
            system_name: None,
            kernel_version: None,
            os_version: None,
            host_name: None,
            cpu_count: 2,
            total_memory: 0,
            used_memory: 0,
            total_swap: 0,
            used_swap: 0,
            disks: vec![],
        }
    }
}

fn shipped_registry() -> Registry<ShippedTool<FakeMachine>> {
    let mut reg = Registry::new();
    assert!(reg.register(system_info_descriptor(), ShippedTool::SystemInfo(FakeMachine)).is_ok());
    assert!(reg.register(greeting_descriptor(), ShippedTool::Greeting(GreetingTool)).is_ok());
    reg
}

#[test]
fn shipped_tools_answer_after_earlier_failures() {
    let reg = shipped_registry();
    let bad = Request { tool_name: "nonexistent".to_string(), arguments: vec![] };
    assert_eq!(failure(&dispatch(&reg, &bad)).0, ErrorKind::UnknownTool);
    let invalid = Request { tool_name: "greeting".to_string(), arguments: vec![] };
    assert_eq!(failure(&dispatch(&reg, &invalid)).0, ErrorKind::InvalidArguments);
    let req = Request { tool_name: "get_system_info".to_string(), arguments: vec![] };
    match dispatch(&reg, &req) {
        Response::Success(t) => {
            assert!(t.contains("Number of Cores:  2\n"));
            assert!(t.contains("Kernel Version:   <unknown>\n"));
        }
        Response::Failure(e) => panic!("unexpected failure: {}", e.message),
    }
    let greet_req = Request { tool_name: "greeting".to_string(), arguments: vec![text_arg("message", "friend")] };
    match dispatch(&reg, &greet_req) {
        Response::Success(t) => assert_eq!(t, "Hello World MCP! friend"),
        Response::Failure(e) => panic!("unexpected failure: {}", e.message),
    }
}
