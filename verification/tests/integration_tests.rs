use rust_mcp_server::json::Json;
use rust_mcp_server::mcp::{McpServer, Outcome};
use rust_mcp_server::types::{
    CallToolResponse, JsonRpcRequest, JsonRpcResponse, ListToolsResponse, ToolContent,
};

fn response_of(outcome: Outcome) -> JsonRpcResponse {
    match outcome {
        Outcome::Reply(Some(response)) => response,
        other => panic!("expected a response, got {:?}", other),
    }
}

#[test]
fn test_mcp_server_initialization() {
    let mut server = McpServer::new("test-server".to_string(), "1.0.0".to_string());

    let init_request = JsonRpcRequest {
        jsonrpc: "2.0".to_string(),
        id: Some(Json::from_u64(1)),
        method: "initialize".to_string(),
        params: Some(
            Json::object()
                .with("protocolVersion", Json::text("2024-11-05"))
                .with("capabilities", Json::object())
                .with(
                    "clientInfo",
                    Json::object()
                        .with("name", Json::text("test-client"))
                        .with("version", Json::text("1.0.0")),
                ),
        ),
    };

    let response = response_of(server.handle_request(init_request));

    assert_eq!(response.jsonrpc, "2.0");
    assert_eq!(response.id, Some(Json::from_u64(1)));
    assert!(response.result.is_some());
    assert!(response.error.is_none());
    assert!(server.initialized);
}

#[test]
fn test_list_tools() {
    let mut server = McpServer::new("test-server".to_string(), "1.0.0".to_string());
    server.initialized = true; // Skip initialization for this test

    let request = JsonRpcRequest {
        jsonrpc: "2.0".to_string(),
        id: Some(Json::from_u64(2)),
        method: "tools/list".to_string(),
        params: None,
    };

    let response = response_of(server.handle_request(request));

    assert_eq!(response.jsonrpc, "2.0");
    assert_eq!(response.id, Some(Json::from_u64(2)));
    assert!(response.result.is_some());
    assert!(response.error.is_none());

    // Verify we have the expected tools
    if let Some(result) = response.result {
        let tools_response = ListToolsResponse::from_json(&result).unwrap();
        assert!(!tools_response.tools.is_empty());

        let tool_names: Vec<&str> = tools_response.tools.iter().map(|t| t.name.as_str()).collect();
        assert!(tool_names.contains(&"echo"));
        assert!(tool_names.contains(&"get_system_info"));
        assert!(tool_names.contains(&"list_files"));
        assert!(tool_names.contains(&"read_file"));
        assert!(tool_names.contains(&"execute_command"));
    }
}

#[test]
fn test_echo_tool() {
    let mut server = McpServer::new("test-server".to_string(), "1.0.0".to_string());
    server.initialized = true;

    let request = JsonRpcRequest {
        jsonrpc: "2.0".to_string(),
        id: Some(Json::from_u64(3)),
        method: "tools/call".to_string(),
        params: Some(
            Json::object()
                .with("name", Json::text("echo"))
                .with("arguments", Json::object().with("text", Json::text("Hello, World!"))),
        ),
    };

    let response = response_of(server.handle_request(request));

    assert_eq!(response.jsonrpc, "2.0");
    assert_eq!(response.id, Some(Json::from_u64(3)));
    assert!(response.result.is_some());
    assert!(response.error.is_none());

    if let Some(result) = response.result {
        let tool_response = CallToolResponse::from_json(&result).unwrap();
        assert!(!tool_response.content.is_empty());

        if let ToolContent::Text { text } = &tool_response.content[0] {
            assert!(text.contains("Echo: Hello, World!"));
        } else {
            panic!("Expected text content");
        }
    }
}

#[test]
fn test_method_not_found() {
    let mut server = McpServer::new("test-server".to_string(), "1.0.0".to_string());

    let request = JsonRpcRequest {
        jsonrpc: "2.0".to_string(),
        id: Some(Json::from_u64(4)),
        method: "nonexistent_method".to_string(),
        params: None,
    };

    let response = response_of(server.handle_request(request));

    assert_eq!(response.jsonrpc, "2.0");
    assert_eq!(response.id, Some(Json::from_u64(4)));
    assert!(response.result.is_none());
    assert!(response.error.is_some());

    if let Some(error) = response.error {
        assert_eq!(error.code, -32601); // METHOD_NOT_FOUND
    }
}

#[test]
fn test_ping() {
    let mut server = McpServer::new("test-server".to_string(), "1.0.0".to_string());

    let request = JsonRpcRequest {
        jsonrpc: "2.0".to_string(),
        id: Some(Json::from_u64(5)),
        method: "ping".to_string(),
        params: None,
    };

    let response = response_of(server.handle_request(request));

    assert_eq!(response.jsonrpc, "2.0");
    assert_eq!(response.id, Some(Json::from_u64(5)));
    assert!(response.result.is_some());
    assert!(response.error.is_none());

    if let Some(result) = response.result {
        assert_eq!(result.get("pong"), Some(&Json::Bool(true)));
    }
}

#[test]
fn initialize_records_the_client() {
    let mut server = McpServer::new("test-server".to_string(), "1.0.0".to_string());
    assert_eq!(server.protocol_version, "2024-11-05");
    assert_eq!(server.client_info, None);
    assert!(!server.initialized);

    let request = JsonRpcRequest {
        jsonrpc: "2.0".to_string(),
        id: Some(Json::from_u64(1)),
        method: "initialize".to_string(),
        params: Some(
            Json::object()
                .with("protocolVersion", Json::text("2024-11-05"))
                .with("capabilities", Json::object())
                .with(
                    "clientInfo",
                    Json::object()
                        .with("name", Json::text("test-client"))
                        .with("version", Json::text("1.0.0")),
                ),
        ),
    };
    response_of(server.handle_request(request));

    let client = server.client_info.clone().unwrap();
    assert_eq!(client.name, "test-client");
    assert_eq!(client.version, "1.0.0");
    assert_eq!(server.name, "test-server");
    assert_eq!(server.version, "1.0.0");
}

#[test]
fn resume_goes_on_with_the_answer() {
    let mut server = McpServer::new("test-server".to_string(), "1.0.0".to_string());
    server.initialized = true;

    let request = JsonRpcRequest {
        jsonrpc: "2.0".to_string(),
        id: Some(Json::from_u64(8)),
        method: "tools/call".to_string(),
        params: Some(
            Json::object()
                .with("name", Json::text("execute_command"))
                .with("arguments", Json::object().with("command", Json::text("whoami"))),
        ),
    };
    let (pending, question) = match server.handle_request(request) {
        Outcome::Ask { pending, question } => (pending, question),
        other => panic!("expected a question, got {:?}", other),
    };
    assert_eq!(
        question,
        rust_mcp_server::host::HostRequest::Run { command: "whoami".to_string(), args: Vec::new() }
    );
    assert_eq!(pending.id, Some(Json::from_u64(8)));
    assert!(pending.replies.is_empty());

    let answer = rust_mcp_server::host::HostReply::Ran {
        stdout: "me\n".to_string(),
        stderr: String::new(),
        success: true,
    };
    let response = response_of(server.resume(pending, answer));
    assert_eq!(response.id, Some(Json::from_u64(8)));
    let result = CallToolResponse::from_json(&response.result.unwrap()).unwrap();
    assert_eq!(
        result,
        CallToolResponse::text("Command: whoami \nOutput:\nme\n".to_string())
    );
}
