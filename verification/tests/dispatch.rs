use accessibility_mcp::protocol::{
    Action, Capabilities, ErrorCode, ErrorInfo, Message, MessageContent, Node, NodeId, Request,
    Response, ResponseData, SchemaType, ServerInfo, ToolsCapability,
};
use accessibility_mcp::provider::{AccessibilityProvider, ProviderError};
use accessibility_mcp::server::{
    get_node_response, handle_find_by_name, handle_get_node, handle_initialize,
    handle_perform_action, handle_query_tree, handle_request, handle_tools_list,
    perform_action_response, query_tree_response, Config, LogLevel, TransportKind,
};
use accessibility_mcp::tools::tools_list;
use std::collections::HashMap;
use std::sync::atomic::{AtomicUsize, Ordering};

struct Scenario {
    root: Option<String>,
    nodes: HashMap<String, Node>,
    accepts: Vec<Action>,
    calls: AtomicUsize,
}

impl Scenario {
    fn empty() -> Scenario {
        Scenario { root: None, nodes: HashMap::new(), accepts: vec![], calls: AtomicUsize::new(0) }
    }

    fn with_button() -> Scenario {
        let mut scenario = Scenario::empty();
        scenario.nodes.insert("n1".to_string(), ok_button());
        scenario.root = Some("n1".to_string());
        scenario.accepts = vec![Action::Press];
        scenario
    }

    fn calls(&self) -> usize {
        self.calls.load(Ordering::SeqCst)
    }
}

impl AccessibilityProvider for Scenario {
    fn get_root(&self) -> Result<Node, ProviderError> {
        self.calls.fetch_add(1, Ordering::SeqCst);
        match &self.root {
            Some(id) => Ok(self.nodes[id].clone()),
            None => Err(ProviderError::new("no application element")),
        }
    }

    fn get_children(&self, node_id: &NodeId) -> Result<Vec<Node>, ProviderError> {
        self.calls.fetch_add(1, Ordering::SeqCst);
        let node = self.get_node(node_id)?;
        node.children.iter().map(|child| self.get_node(child)).collect()
    }

    fn get_node(&self, node_id: &NodeId) -> Result<Node, ProviderError> {
        self.calls.fetch_add(1, Ordering::SeqCst);
        match self.nodes.get(node_id.as_str()) {
            Some(node) => Ok(node.clone()),
            None => Err(ProviderError::new("Node ID not found in cache")),
        }
    }

    fn perform_action(&self, node_id: &NodeId, action: &Action) -> Result<(), ProviderError> {
        self.calls.fetch_add(1, Ordering::SeqCst);
        self.get_node(node_id)?;
        if self.accepts.contains(action) {
            Ok(())
        } else {
            Err(ProviderError::new("action rejected"))
        }
    }
}

fn ok_button() -> Node {
    Node {
        id: NodeId::from("n1"),
        role: "button".to_string(),
        name: Some("OK".to_string()),
        value: None,
        description: None,
        bounds: None,
        actions: vec![Action::Press],
        children: vec![],
    }
}

fn error(code: ErrorCode, message: &str) -> Response {
    Response::Error { error: ErrorInfo { code, message: message.to_string() } }
}

fn every_request() -> Vec<Request> {
    vec![
        Request::QueryTree { max_depth: None, max_nodes: None },
        Request::GetNode { node_id: NodeId::from("n1") },
        Request::PerformAction { node_id: NodeId::from("n1"), action: Action::Press },
        Request::FindByName { name: "ok".to_string() },
        Request::Initialize { protocol_version: Some("1.0".to_string()), capabilities: None },
        Request::ToolsList,
    ]
}

#[test]
fn get_node_returns_the_node() {
    let scenario = Scenario::with_button();
    let response = handle_get_node(&scenario, &NodeId::from("n1"));
    assert_eq!(response, Response::Success { result: ResponseData::Node { node: ok_button() } });
    match response {
        Response::Success { result: ResponseData::Node { node } } => {
            assert_eq!(node.id.as_str(), "n1");
            assert_eq!(node.role, "button");
            assert_eq!(node.name, Some("OK".to_string()));
            assert_eq!(node.actions, vec![Action::Press]);
        }
        other => panic!("unexpected response {:?}", other),
    }
}

#[test]
fn get_node_on_unknown_identifier_is_not_found() {
    let scenario = Scenario::with_button();
    let response = handle_get_node(&scenario, &NodeId::from("missing"));
    assert_eq!(
        response,
        error(ErrorCode::NotFound, "Node not found: Node ID not found in cache")
    );
}

#[test]
fn get_node_response_for_each_answer() {
    assert_eq!(
        get_node_response(Ok(ok_button())),
        Response::Success { result: ResponseData::Node { node: ok_button() } }
    );
    assert_eq!(
        get_node_response(Err(ProviderError::new("stale"))),
        error(ErrorCode::NotFound, "Node not found: stale")
    );
    assert_eq!(
        get_node_response(Err(ProviderError::new(""))),
        error(ErrorCode::NotFound, "Node not found: ")
    );
}

#[test]
fn perform_action_accepted_succeeds() {
    let scenario = Scenario::with_button();
    let response = handle_perform_action(&scenario, &NodeId::from("n1"), &Action::Press);
    assert_eq!(
        response,
        Response::Success { result: ResponseData::ActionResult { success: true } }
    );
}

#[test]
fn perform_action_rejected_is_invalid_action() {
    let mut scenario = Scenario::with_button();
    scenario.accepts = vec![];
    let response = handle_perform_action(&scenario, &NodeId::from("n1"), &Action::Press);
    assert_eq!(
        response,
        error(ErrorCode::InvalidAction, "Failed to perform action: action rejected")
    );
}

#[test]
fn perform_action_is_not_judged_by_the_dispatcher() {
    let mut scenario = Scenario::with_button();
    scenario.accepts = vec![Action::Increment];
    let response = handle_perform_action(&scenario, &NodeId::from("n1"), &Action::Increment);
    assert_eq!(
        response,
        Response::Success { result: ResponseData::ActionResult { success: true } }
    );
}

#[test]
fn perform_action_on_unknown_node_is_invalid_action() {
    let scenario = Scenario::with_button();
    let response = handle_perform_action(&scenario, &NodeId::from("missing"), &Action::Press);
    assert_eq!(
        response,
        error(ErrorCode::InvalidAction, "Failed to perform action: Node ID not found in cache")
    );
}

#[test]
fn perform_action_response_for_each_answer() {
    assert_eq!(
        perform_action_response(Ok(())),
        Response::Success { result: ResponseData::ActionResult { success: true } }
    );
    assert_eq!(
        perform_action_response(Err(ProviderError::new("error code -25205"))),
        error(ErrorCode::InvalidAction, "Failed to perform action: error code -25205")
    );
}

#[test]
fn query_tree_returns_the_root_alone() {
    let mut scenario = Scenario::with_button();
    let mut root = ok_button();
    root.children = vec![NodeId::from("n2")];
    scenario.nodes.insert("n1".to_string(), root.clone());
    let mut child = ok_button();
    child.id = NodeId::from("n2");
    scenario.nodes.insert("n2".to_string(), child);
    let response = handle_query_tree(&scenario, Some(5), Some(100));
    assert_eq!(response, Response::Success { result: ResponseData::Tree { nodes: vec![root] } });
    assert_eq!(scenario.calls(), 1);
}

#[test]
fn query_tree_without_root_is_internal() {
    let scenario = Scenario::empty();
    let response = handle_query_tree(&scenario, None, None);
    assert_eq!(
        response,
        error(ErrorCode::Internal, "Failed to get root: no application element")
    );
}

#[test]
fn query_tree_response_for_each_answer() {
    assert_eq!(
        query_tree_response(Ok(ok_button())),
        Response::Success { result: ResponseData::Tree { nodes: vec![ok_button()] } }
    );
    assert_eq!(
        query_tree_response(Err(ProviderError::new("denied"))),
        error(ErrorCode::Internal, "Failed to get root: denied")
    );
}

#[test]
fn find_by_name_without_root_is_internal() {
    let scenario = Scenario::empty();
    let response = handle_find_by_name(&scenario, "ok");
    assert_eq!(
        response,
        error(ErrorCode::Internal, "Failed to get root: no application element")
    );
}

#[test]
fn find_by_name_is_case_insensitive() {
    let scenario = Scenario::with_button();
    let found = Response::Success { result: ResponseData::Nodes { nodes: vec![ok_button()] } };
    assert_eq!(handle_find_by_name(&scenario, "ok"), found);
    assert_eq!(handle_find_by_name(&scenario, "OK"), found);
    assert_eq!(handle_find_by_name(&scenario, "Ok"), found);
    assert_eq!(handle_find_by_name(&scenario, "k"), found);
    assert_eq!(handle_find_by_name(&scenario, ""), found);
    assert_eq!(
        handle_find_by_name(&scenario, "cancel"),
        Response::Success { result: ResponseData::Nodes { nodes: vec![] } }
    );
}

fn identity() -> Response {
    Response::Success {
        result: ResponseData::Initialize {
            protocol_version: "1.0".to_string(),
            capabilities: Capabilities { tools: Some(ToolsCapability { list_changed: false }) },
            server_info: ServerInfo {
                name: "accessibility_mcp".to_string(),
                version: "0.1.0".to_string(),
            },
        },
    }
}

#[test]
fn initialize_without_version_identifies_the_server() {
    assert_eq!(handle_initialize(None, None), identity());
    assert_eq!(handle_initialize(None, Some(serde_json::Value::Null)), identity());
}

#[test]
fn initialize_accepts_any_version_of_the_major() {
    for version in ["1.0", "1.1", "1.", "1.0.7", "1.x"] {
        assert_eq!(handle_initialize(Some(version.to_string()), None), identity(), "{}", version);
    }
}

#[test]
fn initialize_refuses_other_versions() {
    for version in ["2.0", "", "1", "0.1.", "v1.0", "11.0", " 1.0"] {
        assert_eq!(
            handle_initialize(Some(version.to_string()), None),
            error(
                ErrorCode::Internal,
                &format!("Unsupported protocol version: {}", version)
            ),
            "{:?}",
            version
        );
    }
}

#[test]
fn tools_list_has_the_four_tools() {
    let tools = tools_list();
    let names: Vec<&str> = tools.iter().map(|tool| tool.name.as_str()).collect();
    assert_eq!(names, vec!["query_tree", "get_node", "perform_action", "find_by_name"]);
    let descriptions: Vec<&str> = tools.iter().map(|tool| tool.description.as_str()).collect();
    assert_eq!(
        descriptions,
        vec![
            "Query the accessibility tree starting from the root node",
            "Get details for a specific accessibility node by ID",
            "Perform an accessibility action on a node",
            "Find accessibility nodes by name (substring match)",
        ]
    );
}

#[test]
fn tools_list_describes_the_inputs() {
    let tools = tools_list();

    let query_tree = &tools[0].input_schema;
    assert_eq!(query_tree.required, None);
    assert_eq!(query_tree.properties.len(), 2);
    assert_eq!(query_tree.properties[0].name, "max_depth");
    assert_eq!(query_tree.properties[0].kind, SchemaType::Integer);
    assert_eq!(query_tree.properties[0].description, "Maximum depth to traverse (optional)");
    assert_eq!(query_tree.properties[1].name, "max_nodes");
    assert_eq!(query_tree.properties[1].kind, SchemaType::Integer);
    assert_eq!(
        query_tree.properties[1].description,
        "Maximum number of nodes to return (optional)"
    );

    let get_node = &tools[1].input_schema;
    assert_eq!(get_node.required, Some(vec!["node_id".to_string()]));
    assert_eq!(get_node.properties.len(), 1);
    assert_eq!(get_node.properties[0].name, "node_id");
    assert_eq!(get_node.properties[0].kind, SchemaType::String);
    assert_eq!(get_node.properties[0].description, "The unique identifier of the node");
    assert!(get_node.properties[0].fields.is_empty());
    assert_eq!(get_node.properties[0].required, None);

    let perform_action = &tools[2].input_schema;
    assert_eq!(
        perform_action.required,
        Some(vec!["node_id".to_string(), "action".to_string()])
    );
    assert_eq!(perform_action.properties.len(), 2);
    assert_eq!(perform_action.properties[0], get_node.properties[0]);
    let action = &perform_action.properties[1];
    assert_eq!(action.name, "action");
    assert_eq!(action.kind, SchemaType::Object);
    assert_eq!(action.description, "The action to perform");
    assert_eq!(action.required, Some(vec!["type".to_string()]));
    assert_eq!(action.fields.len(), 1);
    assert_eq!(action.fields[0].name, "type");
    assert_eq!(action.fields[0].kind, SchemaType::String);
    let tags: Vec<String> = [
        "focus",
        "press",
        "increment",
        "decrement",
        "set_value",
        "scroll",
        "context_menu",
        "custom",
    ]
    .iter()
    .map(|tag| tag.to_string())
    .collect();
    assert_eq!(action.fields[0].choices, Some(tags));

    let find_by_name = &tools[3].input_schema;
    assert_eq!(find_by_name.required, Some(vec!["name".to_string()]));
    assert_eq!(find_by_name.properties.len(), 1);
    assert_eq!(find_by_name.properties[0].name, "name");
    assert_eq!(find_by_name.properties[0].kind, SchemaType::String);
    assert_eq!(
        find_by_name.properties[0].description,
        "The name or partial name to search for"
    );
}

#[test]
fn tools_list_does_not_depend_on_the_provider() {
    let first = handle_tools_list();
    let second = handle_tools_list();
    assert_eq!(first, second);
    assert_eq!(first, Response::Success { result: ResponseData::Tools { tools: tools_list() } });

    let with_tree = Scenario::with_button();
    let without_tree = Scenario::empty();
    let request = || Ok(Message::request(Request::ToolsList));
    let a = handle_request(&with_tree, request());
    let b = handle_request(&without_tree, request());
    assert_eq!(a, b);
    assert_eq!(a, Message::response(first));
    assert_eq!(with_tree.calls(), 0);
    assert_eq!(without_tree.calls(), 0);
}

#[test]
fn other_protocol_version_is_refused_for_every_request() {
    for version in ["2.0", "1.1", "", "1", "1.0 ", "01.0"] {
        for request in every_request() {
            let scenario = Scenario::with_button();
            let message = Message {
                protocol_version: version.to_string(),
                content: MessageContent::Request(request),
            };
            let reply = handle_request(&scenario, Ok(message));
            assert_eq!(
                reply,
                Message::error(
                    ErrorCode::Internal,
                    format!("Unsupported protocol version: {}", version)
                )
            );
            assert_eq!(reply.protocol_version, "1.0");
            assert_eq!(scenario.calls(), 0);
        }
    }
}

#[test]
fn current_protocol_version_reaches_the_handler() {
    for request in every_request() {
        let scenario = Scenario::with_button();
        let reply = handle_request(&scenario, Ok(Message::request(request)));
        assert_eq!(reply.protocol_version, "1.0");
        match reply.content {
            MessageContent::Response(Response::Success { .. }) => {}
            other => panic!("unexpected content {:?}", other),
        }
    }
}

#[test]
fn undecodable_text_is_refused() {
    let scenario = Scenario::with_button();
    let reply = handle_request(&scenario, Err("expected value at line 1 column 1".to_string()));
    assert_eq!(
        reply,
        Message::error(
            ErrorCode::Internal,
            "Invalid JSON: expected value at line 1 column 1".to_string()
        )
    );
    assert_eq!(scenario.calls(), 0);
}

#[test]
fn response_in_place_of_request_is_refused() {
    let scenario = Scenario::with_button();
    let misuse = Message::success(ResponseData::ActionResult { success: true });
    let reply = handle_request(&scenario, Ok(misuse));
    assert_eq!(
        reply,
        Message::error(ErrorCode::Internal, "Expected request, got response".to_string())
    );
    assert_eq!(scenario.calls(), 0);
}

#[test]
fn version_is_checked_before_the_content() {
    let scenario = Scenario::with_button();
    let mut misuse = Message::success(ResponseData::ActionResult { success: true });
    misuse.protocol_version = "0.9".to_string();
    let reply = handle_request(&scenario, Ok(misuse));
    assert_eq!(
        reply,
        Message::error(ErrorCode::Internal, "Unsupported protocol version: 0.9".to_string())
    );
}

#[test]
fn requests_are_routed_to_their_handlers() {
    let scenario = Scenario::with_button();
    let ask = |request: Request| handle_request(&scenario, Ok(Message::request(request)));

    assert_eq!(
        ask(Request::QueryTree { max_depth: Some(1), max_nodes: None }),
        Message::success(ResponseData::Tree { nodes: vec![ok_button()] })
    );
    assert_eq!(
        ask(Request::GetNode { node_id: NodeId::from("n1") }),
        Message::success(ResponseData::Node { node: ok_button() })
    );
    assert_eq!(
        ask(Request::GetNode { node_id: NodeId::from("missing") }),
        Message::error(
            ErrorCode::NotFound,
            "Node not found: Node ID not found in cache".to_string()
        )
    );
    assert_eq!(
        ask(Request::PerformAction { node_id: NodeId::from("n1"), action: Action::Press }),
        Message::success(ResponseData::ActionResult { success: true })
    );
    assert_eq!(
        ask(Request::PerformAction { node_id: NodeId::from("n1"), action: Action::Focus }),
        Message::error(
            ErrorCode::InvalidAction,
            "Failed to perform action: action rejected".to_string()
        )
    );
    assert_eq!(
        ask(Request::FindByName { name: "ok".to_string() }),
        Message::success(ResponseData::Nodes { nodes: vec![ok_button()] })
    );
    assert_eq!(
        ask(Request::Initialize { protocol_version: Some("1.2".to_string()), capabilities: None }),
        Message::response(identity())
    );
    assert_eq!(
        ask(Request::Initialize { protocol_version: Some("3.0".to_string()), capabilities: None }),
        Message::error(ErrorCode::Internal, "Unsupported protocol version: 3.0".to_string())
    );
    assert_eq!(
        ask(Request::ToolsList),
        Message::success(ResponseData::Tools { tools: tools_list() })
    );
}

#[test]
fn single_lookups_ask_the_provider_once() {
    let scenario = Scenario::with_button();
    handle_query_tree(&scenario, None, None);
    assert_eq!(scenario.calls(), 1);
}

#[test]
fn config_defaults() {
    assert_eq!(TransportKind::default(), TransportKind::Stdio);
    assert_eq!(LogLevel::default(), LogLevel::Info);
    let config = Config::default();
    assert_eq!(config.transport, TransportKind::Stdio);
    assert_eq!(config.port, None);
    assert!(!config.normalize);
    assert_eq!(config.log_level, LogLevel::Info);
}
