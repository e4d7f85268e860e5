use rust_mcp_server::host::{HostReply, HostRequest};
use rust_mcp_server::json::Json;
use rust_mcp_server::mcp::McpServer;
use rust_mcp_server::server::{Action, Event, StdioServer};
use rust_mcp_server::tools::BuiltinTool;

const INITIALIZE: &str = "{\"jsonrpc\":\"2.0\",\"id\":1,\"method\":\"initialize\",\"params\":{\"protocolVersion\":\"2024-11-05\",\"capabilities\":{},\"clientInfo\":{\"name\":\"c\",\"version\":\"1\"}}}";

fn fresh() -> StdioServer<BuiltinTool> {
    StdioServer::new(McpServer::new("srv".to_string(), "9.9.9".to_string()), true)
}

/// Hands one line to the transport and gives back the line that it writes.
fn exchange(server: &mut StdioServer<BuiltinTool>, line: &str) -> Json {
    match server.step(Event::Line(format!("{}\n", line))) {
        Action::Write(out) => {
            assert!(!out.contains('\n'));
            assert!(matches!(server.step(Event::Written), Action::Read));
            Json::parse(&out).unwrap()
        }
        other => panic!("expected a line to write, got {:?}", other),
    }
}

fn initialized() -> StdioServer<BuiltinTool> {
    let mut server = fresh();
    exchange(&mut server, INITIALIZE);
    server
}

fn code_of(response: &Json) -> Option<Json> {
    response.get("error").and_then(|e| e.get("code")).cloned()
}

#[test]
fn handshake_reports_the_server() {
    let mut server = fresh();
    let response = exchange(&mut server, INITIALIZE);
    assert_eq!(response.get("jsonrpc"), Some(&Json::text("2.0")));
    assert_eq!(response.get("id").and_then(|i| i.as_u64()), Some(1));
    assert_eq!(response.get("error"), None);
    let result = response.get("result").unwrap();
    assert_eq!(result.get("protocolVersion"), Some(&Json::text("2024-11-05")));
    let info = result.get("serverInfo").unwrap();
    assert_eq!(info.get("name"), Some(&Json::text("srv")));
    assert_eq!(info.get("version"), Some(&Json::text("9.9.9")));
    let tools = result.get("capabilities").and_then(|c| c.get("tools")).unwrap();
    assert_eq!(tools.get("listChanged"), Some(&Json::Bool(false)));
}

#[test]
fn handshake_line_is_exact() {
    let mut server = fresh();
    match server.step(Event::Line(INITIALIZE.to_string())) {
        Action::Write(out) => assert_eq!(
            out,
            "{\"id\":1,\"jsonrpc\":\"2.0\",\"result\":{\"capabilities\":{\"tools\":{\"listChanged\":false}},\"protocolVersion\":\"2024-11-05\",\"serverInfo\":{\"name\":\"srv\",\"version\":\"9.9.9\"}}}"
        ),
        other => panic!("expected a line to write, got {:?}", other),
    }
}

#[test]
fn premature_list_is_an_internal_error() {
    let mut server = fresh();
    let response = exchange(&mut server, "{\"jsonrpc\":\"2.0\",\"id\":2,\"method\":\"tools/list\"}");
    assert_eq!(response.get("id").and_then(|i| i.as_u64()), Some(2));
    assert_eq!(code_of(&response), Some(Json::from_i64(-32603)));
    assert_eq!(response.get("result"), None);
}

#[test]
fn every_gated_method_fails_before_initialize() {
    for method in ["tools/list", "tools/call", "resources/list", "prompts/list"] {
        let mut server = fresh();
        let line = format!("{{\"jsonrpc\":\"2.0\",\"id\":7,\"method\":\"{}\"}}", method);
        let response = exchange(&mut server, &line);
        assert_eq!(code_of(&response), Some(Json::from_i64(-32603)), "{}", method);
    }
    let mut server = fresh();
    let response = exchange(&mut server, "{\"jsonrpc\":\"2.0\",\"id\":7,\"method\":\"ping\"}");
    assert_eq!(response.get("error"), None);
    assert_eq!(response.get("result").and_then(|r| r.get("pong")), Some(&Json::Bool(true)));
}

#[test]
fn tools_are_listed_after_initialize() {
    let mut server = initialized();
    let response = exchange(&mut server, "{\"jsonrpc\":\"2.0\",\"id\":3,\"method\":\"tools/list\"}");
    assert_eq!(response.get("id").and_then(|i| i.as_u64()), Some(3));
    let tools = response
        .get("result")
        .and_then(|r| r.get("tools"))
        .and_then(|t| t.as_array())
        .unwrap();
    assert_eq!(tools.len(), 5);
    for tool in tools {
        assert!(!tool.get("name").and_then(|n| n.as_str()).unwrap().is_empty());
        assert!(!tool.get("description").and_then(|n| n.as_str()).unwrap().is_empty());
        assert!(tool.get("inputSchema").unwrap().is_object());
    }
}

#[test]
fn listing_is_the_same_each_time() {
    let mut server = initialized();
    let line = "{\"jsonrpc\":\"2.0\",\"id\":3,\"method\":\"tools/list\"}";
    let first = exchange(&mut server, line);
    exchange(&mut server, "{\"jsonrpc\":\"2.0\",\"id\":8,\"method\":\"ping\"}");
    let second = exchange(&mut server, line);
    assert_eq!(first, second);
}

#[test]
fn echo_call_answers_with_the_text() {
    let mut server = initialized();
    let response = exchange(
        &mut server,
        "{\"jsonrpc\":\"2.0\",\"id\":4,\"method\":\"tools/call\",\"params\":{\"name\":\"echo\",\"arguments\":{\"text\":\"hi\"}}}",
    );
    assert_eq!(response.get("id").and_then(|i| i.as_u64()), Some(4));
    let result = response.get("result").unwrap();
    let content = result.get("content").and_then(|c| c.as_array()).unwrap();
    assert_eq!(content[0].get("type"), Some(&Json::text("text")));
    assert_eq!(content[0].get("text"), Some(&Json::text("Echo: hi")));
    assert!(matches!(result.get("isError"), None | Some(Json::Bool(false))));
}

#[test]
fn unknown_method_is_reported() {
    let mut server = initialized();
    let response = exchange(&mut server, "{\"jsonrpc\":\"2.0\",\"id\":5,\"method\":\"nope\"}");
    assert_eq!(response.get("id").and_then(|i| i.as_u64()), Some(5));
    assert_eq!(code_of(&response), Some(Json::from_i64(-32601)));
}

#[test]
fn text_that_is_no_json_is_a_parse_error() {
    let mut server = fresh();
    let response = exchange(&mut server, "not json");
    assert_eq!(response.get("id"), Some(&Json::Null));
    assert_eq!(code_of(&response), Some(Json::from_i64(-32700)));
    assert_eq!(response.get("jsonrpc"), Some(&Json::text("2.0")));
}

#[test]
fn json_that_is_no_object_is_a_parse_error() {
    let mut server = fresh();
    let response = exchange(&mut server, "[1, 2]");
    assert_eq!(response.get("id"), Some(&Json::Null));
    assert_eq!(code_of(&response), Some(Json::from_i64(-32700)));
}

#[test]
fn notification_gets_no_answer() {
    let mut server = initialized();
    let action = server.step(Event::Line("{\"jsonrpc\":\"2.0\",\"method\":\"initialized\"}".to_string()));
    assert!(matches!(action, Action::Read));
    let response = exchange(&mut server, "{\"jsonrpc\":\"2.0\",\"id\":6,\"method\":\"ping\"}");
    assert_eq!(response.get("id").and_then(|i| i.as_u64()), Some(6));
}

#[test]
fn notification_gets_no_answer_even_for_an_error() {
    let mut server = fresh();
    for line in [
        "{\"jsonrpc\":\"2.0\",\"method\":\"tools/list\"}",
        "{\"jsonrpc\":\"2.0\",\"method\":\"nope\"}",
        "{\"jsonrpc\":\"1.0\",\"method\":\"ping\"}",
        "{\"method\":\"ping\"}",
        "{}",
    ] {
        assert!(matches!(server.step(Event::Line(line.to_string())), Action::Read), "{}", line);
    }
}

#[test]
fn empty_line_is_skipped() {
    let mut server = fresh();
    assert!(matches!(server.step(Event::Line(String::new())), Action::Read));
    assert!(matches!(server.step(Event::Line("\n".to_string())), Action::Read));
    assert!(matches!(server.step(Event::Line("  \t \r\n".to_string())), Action::Read));
    let response = exchange(&mut server, "{\"jsonrpc\":\"2.0\",\"id\":1,\"method\":\"ping\"}");
    assert_eq!(response.get("id").and_then(|i| i.as_u64()), Some(1));
}

#[test]
fn line_over_the_limit_is_a_parse_error() {
    let mut server = fresh().with_max_line_len(39);
    let long = "{\"jsonrpc\":\"2.0\",\"id\":1,\"method\":\"ping\"}";
    assert!(long.len() > 39);
    let response = exchange(&mut server, long);
    assert_eq!(response.get("id"), Some(&Json::Null));
    assert_eq!(code_of(&response), Some(Json::from_i64(-32700)));
    let short = "{\"jsonrpc\":\"2.0\",\"id\":1,\"method\":\"p\"}";
    assert!(short.len() + 1 <= 39);
    let response = exchange(&mut server, short);
    assert_eq!(code_of(&response), Some(Json::from_i64(-32601)));
}

#[test]
fn default_limit_is_sixteen_mebibytes() {
    assert_eq!(rust_mcp_server::server::DEFAULT_MAX_LINE_LEN, 16 * 1024 * 1024);
}

#[test]
fn wrong_version_is_an_invalid_request() {
    let mut server = fresh();
    let response = exchange(&mut server, "{\"jsonrpc\":\"1.0\",\"id\":\"a\",\"method\":\"ping\"}");
    assert_eq!(response.get("id"), Some(&Json::text("a")));
    assert_eq!(code_of(&response), Some(Json::from_i64(-32600)));
}

#[test]
fn missing_method_is_an_invalid_request() {
    let mut server = fresh();
    let response = exchange(&mut server, "{\"jsonrpc\":\"2.0\",\"id\":12}");
    assert_eq!(response.get("id").and_then(|i| i.as_u64()), Some(12));
    assert_eq!(code_of(&response), Some(Json::from_i64(-32600)));
}

#[test]
fn null_id_is_answered_with_null_id() {
    let mut server = fresh();
    let response = exchange(&mut server, "{\"jsonrpc\":\"2.0\",\"id\":null,\"method\":\"ping\"}");
    assert_eq!(response.get("id"), Some(&Json::Null));
    assert!(response.get("result").is_some());
}

#[test]
fn initialize_without_params_is_invalid_params() {
    let mut server = fresh();
    let response = exchange(&mut server, "{\"jsonrpc\":\"2.0\",\"id\":1,\"method\":\"initialize\"}");
    assert_eq!(code_of(&response), Some(Json::from_i64(-32602)));
    let response = exchange(
        &mut server,
        "{\"jsonrpc\":\"2.0\",\"id\":2,\"method\":\"initialize\",\"params\":{\"protocolVersion\":1}}",
    );
    assert_eq!(code_of(&response), Some(Json::from_i64(-32602)));
    let response = exchange(&mut server, "{\"jsonrpc\":\"2.0\",\"id\":3,\"method\":\"tools/list\"}");
    assert_eq!(code_of(&response), Some(Json::from_i64(-32603)));
}

#[test]
fn call_without_a_name_is_invalid_params() {
    let mut server = initialized();
    let response = exchange(&mut server, "{\"jsonrpc\":\"2.0\",\"id\":1,\"method\":\"tools/call\"}");
    assert_eq!(code_of(&response), Some(Json::from_i64(-32602)));
    let response = exchange(
        &mut server,
        "{\"jsonrpc\":\"2.0\",\"id\":1,\"method\":\"tools/call\",\"params\":{\"arguments\":{}}}",
    );
    assert_eq!(code_of(&response), Some(Json::from_i64(-32602)));
}

#[test]
fn unregistered_tool_is_a_result_with_is_error() {
    let mut server = initialized();
    let response = exchange(
        &mut server,
        "{\"jsonrpc\":\"2.0\",\"id\":1,\"method\":\"tools/call\",\"params\":{\"name\":\"frobnicate\"}}",
    );
    assert_eq!(response.get("error"), None);
    let result = response.get("result").unwrap();
    assert_eq!(result.get("isError"), Some(&Json::Bool(true)));
    let content = result.get("content").and_then(|c| c.as_array()).unwrap();
    assert_eq!(content[0].get("text"), Some(&Json::text("Tool 'frobnicate' not found")));
}

#[test]
fn handler_failure_is_an_internal_error() {
    let mut server = initialized();
    let response = exchange(
        &mut server,
        "{\"jsonrpc\":\"2.0\",\"id\":1,\"method\":\"tools/call\",\"params\":{\"name\":\"read_file\",\"arguments\":{}}}",
    );
    assert_eq!(code_of(&response), Some(Json::from_i64(-32603)));
    assert_eq!(response.get("result"), None);
}

#[test]
fn resources_and_prompts_are_empty() {
    let mut server = initialized();
    let response = exchange(&mut server, "{\"jsonrpc\":\"2.0\",\"id\":1,\"method\":\"resources/list\"}");
    assert_eq!(
        response.get("result").and_then(|r| r.get("resources")),
        Some(&Json::Array(Vec::new()))
    );
    let response = exchange(&mut server, "{\"jsonrpc\":\"2.0\",\"id\":2,\"method\":\"prompts/list\"}");
    assert_eq!(
        response.get("result").and_then(|r| r.get("prompts")),
        Some(&Json::Array(Vec::new()))
    );
}

#[test]
fn initialized_with_an_id_is_answered_with_null() {
    let mut server = initialized();
    let response = exchange(&mut server, "{\"jsonrpc\":\"2.0\",\"id\":1,\"method\":\"initialized\"}");
    assert_eq!(response.get("result"), Some(&Json::Null));
    assert_eq!(response.get("error"), None);
}

#[test]
fn read_file_asks_the_host_twice() {
    let mut server = initialized();
    let line = "{\"jsonrpc\":\"2.0\",\"id\":9,\"method\":\"tools/call\",\"params\":{\"name\":\"read_file\",\"arguments\":{\"path\":\"notes.txt\"}}}";
    let action = server.step(Event::Line(line.to_string()));
    assert_eq!(action, Action::Ask(HostRequest::FileSize { path: "notes.txt".to_string() }));
    let action = server.step(Event::Answer(HostReply::FileSize(5)));
    assert_eq!(action, Action::Ask(HostRequest::FileText { path: "notes.txt".to_string() }));
    match server.step(Event::Answer(HostReply::FileText("hello".to_string()))) {
        Action::Write(out) => {
            let response = Json::parse(&out).unwrap();
            assert_eq!(response.get("id").and_then(|i| i.as_u64()), Some(9));
            let content = response
                .get("result")
                .and_then(|r| r.get("content"))
                .and_then(|c| c.as_array())
                .unwrap();
            assert_eq!(
                content[0].get("text"),
                Some(&Json::text("Contents of notes.txt:\nhello"))
            );
        }
        other => panic!("expected a line to write, got {:?}", other),
    }
}

#[test]
fn read_file_with_limit_zero_refuses_a_file_that_is_not_empty() {
    let mut server = initialized();
    let line = "{\"jsonrpc\":\"2.0\",\"id\":9,\"method\":\"tools/call\",\"params\":{\"name\":\"read_file\",\"arguments\":{\"path\":\"notes.txt\",\"max_size\":0}}}";
    let action = server.step(Event::Line(line.to_string()));
    assert_eq!(action, Action::Ask(HostRequest::FileSize { path: "notes.txt".to_string() }));
    match server.step(Event::Answer(HostReply::FileSize(5))) {
        Action::Write(out) => {
            let response = Json::parse(&out).unwrap();
            assert_eq!(response.get("error"), None);
            let result = response.get("result").unwrap();
            assert_eq!(result.get("isError"), Some(&Json::Bool(true)));
            let content = result.get("content").and_then(|c| c.as_array()).unwrap();
            assert_eq!(
                content[0].get("text"),
                Some(&Json::text("File is too large (5 bytes, max: 0 bytes)"))
            );
        }
        other => panic!("expected a line to write, got {:?}", other),
    }
}

#[test]
fn disallowed_command_is_refused_without_asking_the_host() {
    let mut server = initialized();
    let line = "{\"jsonrpc\":\"2.0\",\"id\":9,\"method\":\"tools/call\",\"params\":{\"name\":\"execute_command\",\"arguments\":{\"command\":\"rm\",\"args\":[\"-rf\",\"/\"]}}}";
    match server.step(Event::Line(line.to_string())) {
        Action::Write(out) => {
            let response = Json::parse(&out).unwrap();
            assert_eq!(response.get("error"), None);
            let result = response.get("result").unwrap();
            assert_eq!(result.get("isError"), Some(&Json::Bool(true)));
            let content = result.get("content").and_then(|c| c.as_array()).unwrap();
            assert_eq!(
                content[0].get("text"),
                Some(&Json::text(
                    "Command 'rm' is not allowed. Allowed commands: echo, date, whoami, pwd, ls, cat, head, tail, wc"
                ))
            );
        }
        other => panic!("expected a line to write, got {:?}", other),
    }
}

#[test]
fn system_info_takes_the_host_name_from_the_library() {
    let mut server = initialized();
    let line = "{\"jsonrpc\":\"2.0\",\"id\":9,\"method\":\"tools/call\",\"params\":{\"name\":\"get_system_info\"}}";
    assert_eq!(server.step(Event::Line(line.to_string())), Action::Ask(HostRequest::Platform));
    let platform = HostReply::Platform { os: "linux".to_string(), arch: "x86_64".to_string() };
    assert_eq!(server.step(Event::Answer(platform)), Action::Ask(HostRequest::HostName));
    let name = match HostRequest::HostName.answer() {
        Some(HostReply::HostName(name)) => name,
        other => panic!("expected a host name, got {:?}", other),
    };
    match server.step(Event::Answer(HostReply::HostName(name.clone()))) {
        Action::Write(out) => {
            let response = Json::parse(&out).unwrap();
            let content = response
                .get("result")
                .and_then(|r| r.get("content"))
                .and_then(|c| c.as_array())
                .unwrap();
            let expected = format!(
                "System Information:\n- OS: linux\n- Architecture: x86_64\n- Hostname: {}",
                name
            );
            assert_eq!(content[0].get("text"), Some(&Json::text(&expected)));
        }
        other => panic!("expected a line to write, got {:?}", other),
    }
}

#[test]
fn end_of_input_stops_the_session() {
    let mut server = fresh();
    assert!(!server.is_stopped());
    assert_eq!(server.step(Event::EndOfInput), Action::Stop);
    assert!(server.is_stopped());
    assert_eq!(server.step(Event::Line("{}".to_string())), Action::Stop);
}

#[test]
fn read_failure_stops_the_session() {
    let mut server = fresh();
    assert_eq!(server.step(Event::ReadFailed), Action::Stop);
    assert!(server.is_stopped());
}

#[test]
fn write_failure_stops_the_session() {
    let mut server = fresh();
    let action = server.step(Event::Line("{\"jsonrpc\":\"2.0\",\"id\":1,\"method\":\"ping\"}".to_string()));
    assert!(matches!(action, Action::Write(_)));
    assert_eq!(server.step(Event::WriteFailed), Action::Stop);
    assert!(server.is_stopped());
}

#[test]
fn event_out_of_turn_stops_the_session() {
    let mut server = fresh();
    assert_eq!(server.step(Event::Written), Action::Stop);
    assert!(server.is_stopped());
}

#[test]
fn transport_shows_its_server_and_its_limit() {
    let mut server = fresh();
    assert_eq!(server.max_line_len(), 16777216);
    assert!(!server.server().initialized);
    exchange(&mut server, INITIALIZE);
    assert!(server.server().initialized);
    assert_eq!(server.server().client_info.as_ref().map(|c| c.name.as_str()), Some("c"));
    assert_eq!(server.with_max_line_len(7).max_line_len(), 7);
}

#[test]
fn quiet_is_kept() {
    assert!(fresh().quiet());
    let loud = StdioServer::new(McpServer::new("s".to_string(), "1".to_string()), false);
    assert!(!loud.quiet());
}

#[test]
fn every_written_line_is_one_well_formed_response() {
    let mut server = fresh();
    let lines = [
        ("{\"jsonrpc\":\"2.0\",\"id\":\"a\",\"method\":\"tools/list\"}", Json::text("a")),
        (INITIALIZE, Json::from_u64(1)),
        ("{\"jsonrpc\":\"2.0\",\"id\":-3,\"method\":\"tools/list\"}", Json::from_i64(-3)),
        ("{\"jsonrpc\":\"2.0\",\"id\":2.5,\"method\":\"nope\"}", Json::parse("2.5").unwrap()),
        ("{\"jsonrpc\":\"2.0\",\"id\":[1],\"method\":\"ping\"}", Json::Array(vec![Json::from_u64(1)])),
        ("{\"jsonrpc\":\"3\",\"id\":4,\"method\":\"ping\"}", Json::from_u64(4)),
        ("{\"id\":5}", Json::from_u64(5)),
        ("][", Json::Null),
        (
            "{\"jsonrpc\":\"2.0\",\"id\":6,\"method\":\"tools/call\",\"params\":{\"name\":\"echo\",\"arguments\":{\"text\":\"two\\nlines\"}}}",
            Json::from_u64(6),
        ),
    ];
    for (line, id) in lines {
        let response = exchange(&mut server, line);
        assert_eq!(response.get("jsonrpc"), Some(&Json::text("2.0")), "{}", line);
        assert_eq!(response.get("id"), Some(&id), "{}", line);
        assert!(response.get("result").is_some() != response.get("error").is_some(), "{}", line);
    }
}

#[test]
fn pending_call_is_answered_under_the_id_of_its_request() {
    let mut server = initialized();
    let line = "{\"jsonrpc\":\"2.0\",\"id\":\"list-1\",\"method\":\"tools/call\",\"params\":{\"name\":\"list_files\",\"arguments\":{\"path\":\"/srv\"}}}";
    let action = server.step(Event::Line(line.to_string()));
    assert_eq!(action, Action::Ask(HostRequest::ListDir { path: "/srv".to_string() }));
    match server.step(Event::Answer(HostReply::Failed("denied".to_string()))) {
        Action::Write(out) => assert_eq!(
            out,
            "{\"id\":\"list-1\",\"jsonrpc\":\"2.0\",\"result\":{\"content\":[{\"text\":\"Error listing directory: denied\",\"type\":\"text\"}],\"isError\":true}}"
        ),
        other => panic!("expected a line to write, got {:?}", other),
    }
    assert_eq!(server.step(Event::Written), Action::Read);
}

#[test]
fn call_as_a_notification_runs_and_stays_silent() {
    let mut server = initialized();
    let line = "{\"jsonrpc\":\"2.0\",\"method\":\"tools/call\",\"params\":{\"name\":\"list_files\"}}";
    let action = server.step(Event::Line(line.to_string()));
    assert_eq!(action, Action::Ask(HostRequest::ListDir { path: ".".to_string() }));
    assert_eq!(server.step(Event::Answer(HostReply::DirEntries(Vec::new()))), Action::Read);
}

#[test]
fn initialize_as_a_notification_opens_the_session() {
    let mut server = fresh();
    let line = INITIALIZE.replace("\"id\":1,", "");
    assert_eq!(server.step(Event::Line(line)), Action::Read);
    let response = exchange(&mut server, "{\"jsonrpc\":\"2.0\",\"id\":3,\"method\":\"tools/list\"}");
    assert_eq!(response.get("error"), None);
}

#[test]
fn answer_out_of_turn_stops_the_session() {
    let mut server = initialized();
    assert_eq!(server.step(Event::Answer(HostReply::FileSize(1))), Action::Stop);
    assert!(server.is_stopped());
}

#[test]
fn white_space_around_a_message_is_dropped() {
    let mut server = fresh();
    assert!(matches!(
        server.step(Event::Line("\u{3000}\u{a0}\u{2028} \t".to_string())),
        Action::Read
    ));
    let response = exchange(
        &mut server,
        "\u{3000} \t{\"jsonrpc\":\"2.0\",\"id\":1,\"method\":\"ping\"}\u{a0}\r",
    );
    assert_eq!(response.get("id").and_then(|i| i.as_u64()), Some(1));
    assert_eq!(response.get("error"), None);
}

#[test]
fn limit_counts_bytes() {
    let mut server = fresh().with_max_line_len(8);
    assert_eq!(server.step(Event::Line("\u{3000}\u{3000}  ".to_string())), Action::Read);
    let response = exchange(&mut server, "\u{3000}\u{3000}\u{3000}");
    assert_eq!(code_of(&response), Some(Json::from_i64(-32700)));
}
