use rust_mcp_server::host::{DirEntry, HostReply, HostRequest};
use rust_mcp_server::json::Json;
use rust_mcp_server::text::{glue, decimal_text, join};
use rust_mcp_server::tools::{
    text_argument, BuiltinTool, EchoTool, ExecuteCommandTool, ListFilesTool, ReadFileTool,
    RegistryError, SystemInfoTool, ToolError, ToolHandler, ToolRegistry, ToolStep,
};
use rust_mcp_server::types::{CallToolRequest, CallToolResponse};

fn done(text: &str) -> ToolStep {
    ToolStep::Done(CallToolResponse::text(text.to_string()))
}

fn failed(text: &str) -> ToolStep {
    ToolStep::Done(CallToolResponse::error(text.to_string()))
}

fn unexpected() -> ToolStep {
    ToolStep::Failed(ToolError { message: "Unexpected reply from the host".to_string() })
}

#[test]
fn decimal_text_writes_numerals() {
    assert_eq!(decimal_text(0), "0");
    assert_eq!(decimal_text(7), "7");
    assert_eq!(decimal_text(10), "10");
    assert_eq!(decimal_text(1048576), "1048576");
    assert_eq!(decimal_text(u64::MAX), "18446744073709551615");
}

#[test]
fn join_puts_the_separator_between() {
    assert_eq!(join(&Vec::new(), ", "), "");
    assert_eq!(join(&vec!["a".to_string()], ", "), "a");
    assert_eq!(join(&vec!["a".to_string(), "".to_string(), "c".to_string()], ", "), "a, , c");
}

#[test]
fn glue_appends() {
    assert_eq!(glue("ab", "cd"), "abcd");
    assert_eq!(glue("", ""), "");
}

#[test]
fn text_argument_wants_a_string() {
    let args = Json::object().with("a", Json::text("x")).with("b", Json::from_u64(1));
    assert_eq!(text_argument(&args, "a"), Some("x"));
    assert_eq!(text_argument(&args, "b"), None);
    assert_eq!(text_argument(&args, "c"), None);
    assert_eq!(text_argument(&Json::Null, "a"), None);
}

#[test]
fn echo_hands_the_text_back() {
    let args = Json::object().with("text", Json::text("some text"));
    assert_eq!(EchoTool.call(&args, &Vec::new()), done("Echo: some text"));
    assert_eq!(EchoTool.call(&Json::object(), &Vec::new()), done("Echo: No text provided"));
    let not_a_string = Json::object().with("text", Json::from_u64(1));
    assert_eq!(EchoTool.call(&not_a_string, &Vec::new()), done("Echo: No text provided"));
    assert_eq!(EchoTool.description(), "Echo back the provided text");
    assert_eq!(
        EchoTool.input_schema().print().unwrap(),
        "{\"properties\":{\"text\":{\"description\":\"Text to echo back\",\"type\":\"string\"}},\"required\":[\"text\"],\"type\":\"object\"}"
    );
}

#[test]
fn system_info_asks_for_platform_and_host_name() {
    let args = Json::object();
    assert_eq!(SystemInfoTool.call(&args, &Vec::new()), ToolStep::Ask(HostRequest::Platform));
    let platform = HostReply::Platform { os: "linux".to_string(), arch: "aarch64".to_string() };
    assert_eq!(
        SystemInfoTool.call(&args, &vec![platform.clone()]),
        ToolStep::Ask(HostRequest::HostName)
    );
    assert_eq!(
        SystemInfoTool.call(&args, &vec![platform.clone(), HostReply::HostName("box".to_string())]),
        done("System Information:\n- OS: linux\n- Architecture: aarch64\n- Hostname: box")
    );
    assert_eq!(SystemInfoTool.call(&args, &vec![HostReply::FileSize(1)]), unexpected());
    assert_eq!(
        SystemInfoTool.call(&args, &vec![platform.clone(), HostReply::FileSize(1)]),
        unexpected()
    );
    assert_eq!(
        SystemInfoTool.call(
            &args,
            &vec![platform.clone(), HostReply::HostName("b".to_string()), HostReply::FileSize(1)]
        ),
        unexpected()
    );
    assert_eq!(SystemInfoTool.description(), "Get basic system information");
    assert_eq!(
        SystemInfoTool.input_schema().print().unwrap(),
        "{\"additionalProperties\":false,\"properties\":{},\"type\":\"object\"}"
    );
}

#[test]
fn host_name_is_answered_by_the_library() {
    match HostRequest::HostName.answer() {
        Some(HostReply::HostName(_)) => {}
        other => panic!("expected a host name, got {:?}", other),
    }
    assert_eq!(HostRequest::Platform.answer(), None);
    assert_eq!(HostRequest::ListDir { path: ".".to_string() }.answer(), None);
    assert_eq!(HostRequest::FileSize { path: ".".to_string() }.answer(), None);
    assert_eq!(HostRequest::FileText { path: ".".to_string() }.answer(), None);
    assert_eq!(
        HostRequest::Run { command: "ls".to_string(), args: Vec::new() }.answer(),
        None
    );
}

#[test]
fn list_files_lists_names_and_kinds() {
    let args = Json::object().with("path", Json::text("/tmp/x"));
    assert_eq!(
        ListFilesTool.call(&args, &Vec::new()),
        ToolStep::Ask(HostRequest::ListDir { path: "/tmp/x".to_string() })
    );
    assert_eq!(
        ListFilesTool.call(&Json::object(), &Vec::new()),
        ToolStep::Ask(HostRequest::ListDir { path: ".".to_string() })
    );
    let entries = vec![
        DirEntry { name: "a.txt".to_string(), is_dir: false },
        DirEntry { name: "sub".to_string(), is_dir: true },
    ];
    assert_eq!(
        ListFilesTool.call(&args, &vec![HostReply::DirEntries(entries)]),
        done("Files in /tmp/x:\na.txt (file)\nsub (directory)")
    );
    assert_eq!(
        ListFilesTool.call(&args, &vec![HostReply::DirEntries(Vec::new())]),
        done("Directory is empty")
    );
    assert_eq!(
        ListFilesTool.call(&args, &vec![HostReply::Failed("denied".to_string())]),
        failed("Error listing directory: denied")
    );
    assert_eq!(ListFilesTool.call(&args, &vec![HostReply::FileSize(1)]), unexpected());
    assert_eq!(
        ListFilesTool.call(
            &args,
            &vec![HostReply::DirEntries(Vec::new()), HostReply::DirEntries(Vec::new())]
        ),
        unexpected()
    );
    assert_eq!(ListFilesTool.description(), "List files in a directory");
    assert_eq!(
        ListFilesTool.input_schema().print().unwrap(),
        "{\"properties\":{\"path\":{\"default\":\".\",\"description\":\"Directory path to list\",\"type\":\"string\"}},\"type\":\"object\"}"
    );
}

#[test]
fn read_file_checks_the_size_first() {
    let args = Json::object().with("path", Json::text("f"));
    assert_eq!(
        ReadFileTool.call(&args, &Vec::new()),
        ToolStep::Ask(HostRequest::FileSize { path: "f".to_string() })
    );
    assert_eq!(
        ReadFileTool.call(&args, &vec![HostReply::FileSize(1048576)]),
        ToolStep::Ask(HostRequest::FileText { path: "f".to_string() })
    );
    assert_eq!(
        ReadFileTool.call(&args, &vec![HostReply::FileSize(1048577)]),
        failed("File is too large (1048577 bytes, max: 1048576 bytes)")
    );
    assert_eq!(
        ReadFileTool.call(&args, &vec![HostReply::Failed("no such file".to_string())]),
        failed("Error accessing file: no such file")
    );
    assert_eq!(
        ReadFileTool.call(
            &args,
            &vec![HostReply::FileSize(3), HostReply::FileText("abc".to_string())]
        ),
        done("Contents of f:\nabc")
    );
    assert_eq!(
        ReadFileTool.call(
            &args,
            &vec![HostReply::FileSize(3), HostReply::Failed("not text".to_string())]
        ),
        failed("Error reading file: not text")
    );
    assert_eq!(ReadFileTool.call(&args, &vec![HostReply::FileText("abc".to_string())]), unexpected());
    assert_eq!(
        ReadFileTool.call(
            &args,
            &vec![HostReply::FileSize(1048577), HostReply::FileText("abc".to_string())]
        ),
        unexpected()
    );
}

#[test]
fn read_file_takes_its_limit_from_the_arguments() {
    let zero = Json::object().with("path", Json::text("f")).with("max_size", Json::from_u64(0));
    assert_eq!(
        ReadFileTool.call(&zero, &vec![HostReply::FileSize(1)]),
        failed("File is too large (1 bytes, max: 0 bytes)")
    );
    assert_eq!(
        ReadFileTool.call(&zero, &vec![HostReply::FileSize(0)]),
        ToolStep::Ask(HostRequest::FileText { path: "f".to_string() })
    );
    let ten = Json::object().with("path", Json::text("f")).with("max_size", Json::from_u64(10));
    assert_eq!(
        ReadFileTool.call(&ten, &vec![HostReply::FileSize(11)]),
        failed("File is too large (11 bytes, max: 10 bytes)")
    );
    let not_a_number =
        Json::object().with("path", Json::text("f")).with("max_size", Json::text("10"));
    assert_eq!(
        ReadFileTool.call(&not_a_number, &vec![HostReply::FileSize(11)]),
        ToolStep::Ask(HostRequest::FileText { path: "f".to_string() })
    );
}

#[test]
fn read_file_needs_a_path() {
    assert_eq!(
        ReadFileTool.call(&Json::object(), &Vec::new()),
        ToolStep::Failed(ToolError { message: "Path is required".to_string() })
    );
    assert_eq!(ReadFileTool.description(), "Read the contents of a file");
    assert_eq!(
        ReadFileTool.input_schema().print().unwrap(),
        "{\"properties\":{\"max_size\":{\"default\":1048576,\"description\":\"Maximum file size to read in bytes\",\"type\":\"integer\"},\"path\":{\"description\":\"Path to the file to read\",\"type\":\"string\"}},\"required\":[\"path\"],\"type\":\"object\"}"
    );
}

#[test]
fn execute_command_runs_what_is_allowed() {
    let args = Json::object().with("command", Json::text("ls")).with(
        "args",
        Json::Array(vec![Json::text("-l"), Json::from_u64(3), Json::text("/tmp")]),
    );
    assert_eq!(
        ExecuteCommandTool.call(&args, &Vec::new()),
        ToolStep::Ask(HostRequest::Run {
            command: "ls".to_string(),
            args: vec!["-l".to_string(), "/tmp".to_string()],
        })
    );
    let ran = HostReply::Ran { stdout: "out\n".to_string(), stderr: String::new(), success: true };
    assert_eq!(
        ExecuteCommandTool.call(&args, &vec![ran]),
        done("Command: ls -l /tmp\nOutput:\nout\n")
    );
    let noisy =
        HostReply::Ran { stdout: "out".to_string(), stderr: "err".to_string(), success: false };
    assert_eq!(
        ExecuteCommandTool.call(&args, &vec![noisy]),
        failed("Command: ls -l /tmp\nSTDOUT:\nout\nSTDERR:\nerr")
    );
    let warned =
        HostReply::Ran { stdout: "out".to_string(), stderr: "warn".to_string(), success: true };
    assert_eq!(
        ExecuteCommandTool.call(&args, &vec![warned]),
        done("Command: ls -l /tmp\nSTDOUT:\nout\nSTDERR:\nwarn")
    );
    assert_eq!(
        ExecuteCommandTool.call(&args, &vec![HostReply::Failed("no such program".to_string())]),
        failed("Error executing command: no such program")
    );
    assert_eq!(ExecuteCommandTool.call(&args, &vec![HostReply::FileSize(1)]), unexpected());
}

#[test]
fn execute_command_without_arguments() {
    let args = Json::object().with("command", Json::text("pwd"));
    assert_eq!(
        ExecuteCommandTool.call(&args, &Vec::new()),
        ToolStep::Ask(HostRequest::Run { command: "pwd".to_string(), args: Vec::new() })
    );
    let ran = HostReply::Ran { stdout: "/".to_string(), stderr: String::new(), success: true };
    assert_eq!(ExecuteCommandTool.call(&args, &vec![ran]), done("Command: pwd \nOutput:\n/"));
    let not_an_array =
        Json::object().with("command", Json::text("pwd")).with("args", Json::text("-P"));
    assert_eq!(
        ExecuteCommandTool.call(&not_an_array, &Vec::new()),
        ToolStep::Ask(HostRequest::Run { command: "pwd".to_string(), args: Vec::new() })
    );
}

#[test]
fn execute_command_allows_nine_commands() {
    for command in ["echo", "date", "whoami", "pwd", "ls", "cat", "head", "tail", "wc"] {
        let args = Json::object().with("command", Json::text(command));
        assert_eq!(
            ExecuteCommandTool.call(&args, &Vec::new()),
            ToolStep::Ask(HostRequest::Run { command: command.to_string(), args: Vec::new() })
        );
    }
}

#[test]
fn execute_command_refuses_the_rest() {
    for command in ["rm", "", "LS", "ls ", "sh"] {
        let args = Json::object().with("command", Json::text(command));
        let expected = format!(
            "Command '{}' is not allowed. Allowed commands: echo, date, whoami, pwd, ls, cat, head, tail, wc",
            command
        );
        assert_eq!(ExecuteCommandTool.call(&args, &Vec::new()), failed(&expected));
        let ran = HostReply::Ran { stdout: String::new(), stderr: String::new(), success: true };
        assert_eq!(ExecuteCommandTool.call(&args, &vec![ran]), failed(&expected));
    }
}

#[test]
fn execute_command_needs_a_command() {
    assert_eq!(
        ExecuteCommandTool.call(&Json::object(), &Vec::new()),
        ToolStep::Failed(ToolError { message: "Command is required".to_string() })
    );
    assert_eq!(
        ExecuteCommandTool.description(),
        "Execute a safe system command (restricted for security)"
    );
    assert_eq!(
        ExecuteCommandTool.input_schema().print().unwrap(),
        "{\"properties\":{\"args\":{\"description\":\"Command arguments\",\"items\":{\"type\":\"string\"},\"type\":\"array\"},\"command\":{\"description\":\"Command to execute\",\"type\":\"string\"}},\"required\":[\"command\"],\"type\":\"object\"}"
    );
}

#[test]
fn registry_comes_with_five_tools() {
    let registry = ToolRegistry::new();
    let names: Vec<String> = registry.list_tools().into_iter().map(|t| t.name).collect();
    assert_eq!(names, ["echo", "get_system_info", "list_files", "read_file", "execute_command"]);
    let again: Vec<String> = registry.list_tools().into_iter().map(|t| t.name).collect();
    assert_eq!(names, again);
    assert_eq!(registry.list_tools(), registry.list_tools());
}

#[test]
fn registry_describes_its_tools() {
    let registry = ToolRegistry::new();
    let tools = registry.list_tools();
    assert_eq!(tools[0].description, EchoTool.description());
    assert_eq!(tools[0].input_schema, EchoTool.input_schema());
    assert_eq!(tools[4].description, ExecuteCommandTool.description());
    assert_eq!(tools[4].input_schema, ExecuteCommandTool.input_schema());
}

#[test]
fn registry_refuses_a_name_twice() {
    let mut registry = ToolRegistry::new();
    assert_eq!(
        registry.register_tool("echo", BuiltinTool::Echo(EchoTool)),
        Err(RegistryError::DuplicateName)
    );
    assert_eq!(registry.list_tools().len(), 5);
    assert_eq!(registry.register_tool("echo2", BuiltinTool::Echo(EchoTool)), Ok(()));
    assert_eq!(registry.list_tools().len(), 6);
    assert_eq!(registry.list_tools()[5].name, "echo2");
    assert_eq!(
        registry.register_tool("echo2", BuiltinTool::ReadFile(ReadFileTool)),
        Err(RegistryError::DuplicateName)
    );
    assert_eq!(registry.list_tools()[5].description, EchoTool.description());
}

#[test]
fn registry_refuses_the_empty_name() {
    let mut registry: ToolRegistry<EchoTool> = ToolRegistry::empty();
    assert_eq!(registry.register_tool("", EchoTool), Err(RegistryError::EmptyName));
    assert!(registry.list_tools().is_empty());
    assert_eq!(registry.register_tool("say", EchoTool), Ok(()));
    assert_eq!(registry.list_tools().len(), 1);
}

#[test]
fn registry_calls_the_tool_that_is_named() {
    let registry = ToolRegistry::new();
    let request = CallToolRequest {
        name: "echo".to_string(),
        arguments: Some(Json::object().with("text", Json::text("t"))),
    };
    assert_eq!(registry.call_tool(&request, &Vec::new()), done("Echo: t"));
    let no_arguments = CallToolRequest { name: "echo".to_string(), arguments: None };
    assert_eq!(registry.call_tool(&no_arguments, &Vec::new()), done("Echo: No text provided"));
    let listing = CallToolRequest { name: "list_files".to_string(), arguments: None };
    assert_eq!(
        registry.call_tool(&listing, &Vec::new()),
        ToolStep::Ask(HostRequest::ListDir { path: ".".to_string() })
    );
}

#[test]
fn registry_reports_a_tool_that_is_not_there() {
    let registry = ToolRegistry::new();
    let request = CallToolRequest { name: "nope".to_string(), arguments: None };
    assert_eq!(registry.call_tool(&request, &Vec::new()), failed("Tool 'nope' not found"));
}
