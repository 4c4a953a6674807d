use orchestrator::mcp;
use orchestrator::mcp::{MCPConfig, MCPServerConfig, MCPTransport, SearchMode, TransportSpec};
use orchestrator::rpc;
use orchestrator::rpc::{ReadOutcome, SessionAction, SessionState};

fn bare_config() -> MCPServerConfig {
    MCPServerConfig {
        name: None,
        description: None,
        server_type: None,
        enabled: None,
        transport: None,
        command: None,
        args: None,
        env: None,
        url: None,
    }
}

fn flat_stdio(cmd: &str, args: Vec<&str>) -> MCPServerConfig {
    MCPServerConfig {
        command: Some(cmd.to_string()),
        args: Some(args.into_iter().map(|s| s.to_string()).collect()),
        ..bare_config()
    }
}

fn nested_stdio(cmd: &str, args: Vec<&str>) -> MCPServerConfig {
    MCPServerConfig {
        transport: Some(TransportSpec {
            transport_type: Some("stdio".to_string()),
            command: Some(cmd.to_string()),
            args: Some(args.into_iter().map(|s| s.to_string()).collect()),
            env: None,
            url: None,
            working_dir: None,
        }),
        ..bare_config()
    }
}

#[test]
fn flat_and_nested_configs_dispatch_identically() {
    let flat = flat_stdio("mcp-server", vec!["--port", "0"]);
    let nested = nested_stdio("mcp-server", vec!["--port", "0"]);
    let a = mcp::resolve_transport(&flat).unwrap();
    let b = mcp::resolve_transport(&nested).unwrap();
    match (a, b) {
        (MCPTransport::Stdio(x), MCPTransport::Stdio(y)) => {
            assert_eq!(x.command, y.command);
            assert_eq!(x.args, y.args);
            assert_eq!(x.env, y.env);
            assert_eq!(x.working_dir, y.working_dir);
        }
        _ => panic!("expected stdio on both shapes"),
    }
}

#[test]
fn http_transport_resolution() {
    let mut cfg = bare_config();
    cfg.url = Some("http://localhost:9000/rpc".to_string());
    match mcp::resolve_transport(&cfg).unwrap() {
        MCPTransport::Http(h) => assert_eq!(h.url, "http://localhost:9000/rpc"),
        _ => panic!("expected http"),
    }
    let mut cfg = bare_config();
    cfg.transport = Some(TransportSpec {
        transport_type: Some("http".to_string()),
        command: None,
        args: None,
        env: None,
        url: Some("https://tools.example/rpc".to_string()),
        working_dir: None,
    });
    match mcp::resolve_transport(&cfg).unwrap() {
        MCPTransport::Http(h) => assert_eq!(h.url, "https://tools.example/rpc"),
        _ => panic!("expected http"),
    }
}

#[test]
fn empty_config_is_refused() {
    let r = mcp::resolve_transport(&bare_config());
    assert_eq!(
        r.err().as_deref(),
        Some("the configuration names no usable transport: stdio needs a command and http needs a url")
    );
}

#[test]
fn normalization_copies_nested_fields_and_names() {
    let mut cfg = nested_stdio("srv", vec!["-x"]);
    cfg.transport.as_mut().unwrap().env = Some(vec![("K".to_string(), "V".to_string())]);
    let n = mcp::normalize_server_config("my-server", cfg);
    assert_eq!(n.command.as_deref(), Some("srv"));
    assert_eq!(n.args, Some(vec!["-x".to_string()]));
    assert_eq!(n.env, Some(vec![("K".to_string(), "V".to_string())]));
    assert_eq!(n.name.as_deref(), Some("my-server"));

    // an empty nested environment is not copied
    let mut cfg = nested_stdio("srv", vec![]);
    cfg.transport.as_mut().unwrap().env = Some(vec![]);
    cfg.env = Some(vec![("A".to_string(), "1".to_string())]);
    let n = mcp::normalize_server_config("s", cfg);
    assert_eq!(n.env, Some(vec![("A".to_string(), "1".to_string())]));

    // a configured display name wins over the key
    let mut cfg = bare_config();
    cfg.name = Some("pretty".to_string());
    let n = mcp::normalize_server_config("ugly-key", cfg);
    assert_eq!(n.name.as_deref(), Some("pretty"));
}

#[test]
fn parse_legacy_config_layout() {
    let text = "{\"mcpServers\":{\"files\":{\"command\":\"file-server\",\"args\":[\"--root\",\"/tmp\"]}}}";
    let cfg = mcp::parse_mcp_config(text).unwrap();
    assert_eq!(cfg.mcp_servers.len(), 1);
    let (key, server) = &cfg.mcp_servers[0];
    assert_eq!(key, "files");
    assert_eq!(server.command.as_deref(), Some("file-server"));
    assert_eq!(server.args, Some(vec!["--root".to_string(), "/tmp".to_string()]));
    assert_eq!(server.name.as_deref(), Some("files"));
}

#[test]
fn parse_new_config_layout() {
    let text = "{\"web\":{\"name\":\"Web tools\",\"transport\":{\"type\":\"http\",\"url\":\"http://h:1/rpc\"}}}";
    let cfg = mcp::parse_mcp_config(text).unwrap();
    assert_eq!(cfg.mcp_servers.len(), 1);
    let (key, server) = &cfg.mcp_servers[0];
    assert_eq!(key, "web");
    assert_eq!(server.name.as_deref(), Some("Web tools"));
    // normalization copied the nested URL onto the flat field
    assert_eq!(server.url.as_deref(), Some("http://h:1/rpc"));
}

#[test]
fn parse_rejects_bad_json() {
    let r = mcp::parse_mcp_config("{not json");
    assert!(r.is_err());
    assert!(r.err().unwrap().starts_with("cannot parse the tool-server configuration: "));
}

#[test]
fn parsed_config_holds_each_name_once() {
    // a duplicated object key reaches the reader only once, and the upsert
    // path keeps the collection's names distinct either way
    let text = "{\"mcpServers\":{\"a\":{\"command\":\"one\"},\"a\":{\"command\":\"two\"}}}";
    let cfg = mcp::parse_mcp_config(text).unwrap();
    assert_eq!(cfg.mcp_servers.len(), 1);
    assert_eq!(cfg.mcp_servers[0].0, "a");
}

#[test]
fn config_collection_operations() {
    let mut cfg = MCPConfig::empty();
    cfg.upsert_server("a".to_string(), flat_stdio("one", vec![]));
    cfg.upsert_server("b".to_string(), flat_stdio("two", vec![]));
    assert_eq!(cfg.mcp_servers.len(), 2);
    // replacing keeps the position
    cfg.upsert_server("a".to_string(), flat_stdio("one-b", vec![]));
    assert_eq!(cfg.mcp_servers.len(), 2);
    assert_eq!(cfg.mcp_servers[0].0, "a");
    assert_eq!(cfg.mcp_servers[0].1.command.as_deref(), Some("one-b"));
    assert_eq!(cfg.get_server("b").unwrap().command.as_deref(), Some("two"));
    assert!(cfg.get_server("c").is_none());
    let r = cfg.set_server_enabled("b", false);
    assert!(r.is_ok());
    assert_eq!(cfg.get_server("b").unwrap().enabled, Some(false));
    let r = cfg.set_server_enabled("missing", true);
    assert_eq!(r.err().as_deref(), Some("no server is recorded under this name"));
    cfg.remove_server("a");
    assert_eq!(cfg.mcp_servers.len(), 1);
    assert_eq!(cfg.mcp_servers[0].0, "b");
    cfg.remove_server("a");
    assert_eq!(cfg.mcp_servers.len(), 1);
}

#[test]
fn listing_defaults_enabled_to_true() {
    let n = mcp::with_enabled_defaulted(bare_config());
    assert_eq!(n.enabled, Some(true));
    let mut cfg = bare_config();
    cfg.enabled = Some(false);
    let n = mcp::with_enabled_defaulted(cfg);
    assert_eq!(n.enabled, Some(false));
}

#[test]
fn server_info_reflects_probe_outcome() {
    let cfg = flat_stdio("one", vec![]);
    let info = mcp::server_info_for("k1", cfg, Ok(vec![]));
    assert_eq!(info.name, "k1");
    assert_eq!(info.key.as_deref(), Some("k1"));
    assert_eq!(info.status, "connected");
    assert_eq!(info.is_default, Some(false));
    assert!(info.error.is_none());

    let mut cfg = flat_stdio("one", vec![]);
    cfg.name = Some("Pretty".to_string());
    let info = mcp::server_info_for("k1", cfg, Err("boom".to_string()));
    assert_eq!(info.name, "Pretty");
    assert_eq!(info.status, "error");
    assert_eq!(info.error.as_deref(), Some("boom"));
    assert!(info.tools.is_none());
}

#[test]
fn default_service_shape() {
    let info = mcp::get_default_server_info();
    assert_eq!(info.name, "System default tools");
    assert_eq!(info.key.as_deref(), Some("__system_default__"));
    assert_eq!(info.status, "connected");
    assert_eq!(info.is_default, Some(true));
    let tools = info.tools.unwrap();
    let names: Vec<&str> = tools.iter().map(|t| t.name.as_str()).collect();
    assert_eq!(names, vec!["get_system_info", "get_resource_info", "get_task_info", "search_resources"]);
    // each schema parsed into a real object document
    assert!(tools.iter().all(|t| t.input_schema.is_object()));
    assert_eq!(mcp::get_default_server_config().enabled, Some(true));
}

#[test]
fn default_tool_dispatch() {
    assert!(mcp::is_default_tool("get_system_info"));
    assert!(mcp::is_default_tool("search_resources"));
    assert!(!mcp::is_default_tool("weather"));
    assert_eq!(mcp::default_tool_of("get_task_info"), Some(mcp::DefaultTool::TaskInfo));
    assert_eq!(mcp::default_tool_of("nope"), None);
}

#[test]
fn search_mode_blank_keyword_lists_all() {
    assert!(matches!(mcp::search_mode(None), SearchMode::All));
    assert!(matches!(mcp::search_mode(Some("   ".to_string())), SearchMode::All));
    match mcp::search_mode(Some("cats".to_string())) {
        SearchMode::Search(k) => assert_eq!(k, "cats"),
        SearchMode::All => panic!("expected a search"),
    }
}

#[test]
fn find_server_by_key_or_name() {
    let servers = vec![
        mcp::server_info_for("alpha", bare_config(), Ok(vec![])),
        mcp::server_info_for("beta", flat_stdio("b", vec![]), Ok(vec![])),
    ];
    assert_eq!(mcp::find_server_index(&servers, "beta"), Some(1));
    assert_eq!(mcp::find_server_index(&servers, "alpha"), Some(0));
    assert_eq!(mcp::find_server_index(&servers, "gamma"), None);
}

#[test]
fn tools_extracted_from_list_response() {
    let doc: serde_json::Value = serde_json::from_str(
        "{\"jsonrpc\":\"2.0\",\"id\":2,\"result\":{\"tools\":[{\"name\":\"echo\",\"description\":\"repeats\",\"inputSchema\":{\"type\":\"object\"}},{\"description\":\"no name\"},{\"name\":\"bare\",\"inputSchema\":{}}]}}",
    )
    .unwrap();
    let tools = mcp::tools_of_response(&doc);
    assert_eq!(tools.len(), 2);
    assert_eq!(tools[0].name, "echo");
    assert_eq!(tools[0].description.as_deref(), Some("repeats"));
    assert_eq!(tools[1].name, "bare");
    assert!(tools[1].description.is_none());
    let empty: serde_json::Value = serde_json::from_str("{\"result\":{}}").unwrap();
    assert!(mcp::tools_of_response(&empty).is_empty());
}

#[test]
fn openai_tool_conversion() {
    let doc: serde_json::Value = serde_json::from_str("{\"type\":\"object\",\"required\":[]}").unwrap();
    let tool = mcp::MCPTool {
        name: "echo".to_string(),
        description: Some("repeats".to_string()),
        input_schema: doc.clone(),
    };
    let def = mcp::mcp_tool_to_openai_tool(&tool);
    assert_eq!(def.tool_type, "function");
    assert_eq!(def.function.name, "echo");
    assert_eq!(def.function.description.as_deref(), Some("repeats"));
    assert_eq!(def.function.parameters, doc);
}

#[test]
fn envelope_texts_are_exact() {
    assert_eq!(
        rpc::initialize_request(),
        "{\"jsonrpc\":\"2.0\",\"id\":1,\"method\":\"initialize\",\"params\":{\"protocolVersion\":\"2024-11-05\",\"capabilities\":{},\"clientInfo\":{\"name\":\"qqh-tauri\",\"version\":\"0.1.0\"}}}"
    );
    assert_eq!(
        rpc::initialized_notification(),
        "{\"jsonrpc\":\"2.0\",\"method\":\"notifications/initialized\"}"
    );
    assert_eq!(
        rpc::list_tools_request(),
        "{\"jsonrpc\":\"2.0\",\"id\":2,\"method\":\"tools/list\"}"
    );
    assert_eq!(
        rpc::call_tool_request("echo", "{\"text\":\"hi\"}"),
        "{\"jsonrpc\":\"2.0\",\"id\":2,\"method\":\"tools/call\",\"params\":{\"name\":\"echo\",\"arguments\":{\"text\":\"hi\"}}}"
    );
    assert_eq!(rpc::as_line("{}"), "{}\n");
    // every envelope is a well-formed JSON document
    assert!(serde_json::from_str::<serde_json::Value>(&rpc::initialize_request()).is_ok());
    assert!(serde_json::from_str::<serde_json::Value>(&rpc::call_tool_request("a\"b\\c", "{}")).is_ok());
}

#[test]
fn json_escaping_in_tool_names() {
    let env = rpc::call_tool_request("a\"b\\c\nd", "{}");
    let doc: serde_json::Value = serde_json::from_str(&env).unwrap();
    assert_eq!(
        doc.get("params").and_then(|p| p.get("name")).and_then(|n| n.as_str()),
        Some("a\"b\\c\nd")
    );
}

#[test]
fn decimal_rendering() {
    let digits = rpc::u64_to_dec(0);
    let s: String = digits.into_iter().collect();
    assert_eq!(s, "0");
    let digits = rpc::u64_to_dec(90210);
    let s: String = digits.into_iter().collect();
    assert_eq!(s, "90210");
}

#[test]
fn result_extraction_prefers_content() {
    let doc: serde_json::Value =
        serde_json::from_str("{\"result\":{\"content\":[{\"type\":\"text\",\"text\":\"ok\"}],\"extra\":1}}").unwrap();
    let r = rpc::extract_http_call_result(&doc).unwrap();
    assert!(r.is_array());
    let doc: serde_json::Value = serde_json::from_str("{\"result\":{\"x\":1}}").unwrap();
    let r = rpc::extract_http_call_result(&doc).unwrap();
    assert_eq!(r.get("x").and_then(|v| v.as_i64()), Some(1));
    let doc: serde_json::Value = serde_json::from_str("{\"error\":{\"code\":-1}}").unwrap();
    let e = rpc::extract_http_call_result(&doc).err().unwrap();
    assert!(e.starts_with("tool call failed: "));
}

#[test]
fn stdio_result_extraction() {
    let doc: serde_json::Value = serde_json::from_str("{\"error\":{\"code\":-1}}").unwrap();
    assert!(rpc::extract_stdio_call_result(&doc).is_err());
    let doc: serde_json::Value = serde_json::from_str("{\"result\":{\"ok\":true}}").unwrap();
    assert!(rpc::extract_stdio_call_result(&doc).is_ok());
    // the nested content is preferred on this transport too
    let doc: serde_json::Value =
        serde_json::from_str("{\"result\":{\"content\":[{\"type\":\"text\",\"text\":\"ok\"}]}}").unwrap();
    assert!(rpc::extract_stdio_call_result(&doc).unwrap().is_array());
    let doc: serde_json::Value = serde_json::from_str("{\"jsonrpc\":\"2.0\"}").unwrap();
    assert_eq!(
        rpc::extract_stdio_call_result(&doc).err().as_deref(),
        Some("the reply carries no result")
    );
    // an error wins over a result standing beside it
    let doc: serde_json::Value =
        serde_json::from_str("{\"result\":{\"x\":1},\"error\":{\"code\":-1}}").unwrap();
    assert!(rpc::extract_http_call_result(&doc).is_err());
}

#[test]
fn session_times_out_instead_of_hanging() {
    // the server answers initialize within the timeout
    let (state, action) = rpc::advance_session(
        SessionState::AwaitingInitReply,
        ReadOutcome::Line("{\"jsonrpc\":\"2.0\",\"id\":1,\"result\":{}}".to_string()),
    );
    assert_eq!(action, SessionAction::WriteNoteThenRequest);
    assert!(matches!(state, SessionState::AwaitingCallReply));
    // but never answers the list request: the bounded read times out
    let (state, action) = rpc::advance_session(state, ReadOutcome::TimedOut);
    assert_eq!(action, SessionAction::NoAction);
    match &state {
        SessionState::Failed(e) => {
            assert_eq!(e, "the server did not answer the request within the timeout")
        }
        _ => panic!("expected the session to fail"),
    }
    // a failed session never advances again
    let (state, _) = rpc::advance_session(state, ReadOutcome::Line("{}".to_string()));
    assert!(matches!(state, SessionState::Failed(_)));
}

#[test]
fn session_init_timeout_fails() {
    let (state, _) = rpc::advance_session(SessionState::AwaitingInitReply, ReadOutcome::TimedOut);
    match state {
        SessionState::Failed(e) => {
            assert_eq!(e, "the server did not answer initialize within the timeout")
        }
        _ => panic!("expected the session to fail"),
    }
}

#[test]
fn session_completes_on_reply() {
    let (state, _) = rpc::advance_session(
        SessionState::AwaitingCallReply,
        ReadOutcome::Line("{\"result\":{}}".to_string()),
    );
    match state {
        SessionState::Completed(l) => assert_eq!(l, "{\"result\":{}}"),
        _ => panic!("expected completion"),
    }
}
