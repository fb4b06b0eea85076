use accessibility_mcp::protocol::{
    Action, ErrorCode, ErrorInfo, Message, MessageContent, Node, NodeId, Rect, Request, Response,
    ResponseData, Scalar, PROTOCOL_VERSION,
};

fn scalar(x: f64) -> Scalar {
    Scalar::from_bits(x.to_bits())
}

fn button(id: &str, name: &str) -> Node {
    Node {
        id: NodeId::from(id),
        role: "button".to_string(),
        name: Some(name.to_string()),
        value: None,
        description: None,
        bounds: None,
        actions: vec![Action::Press],
        children: vec![],
    }
}

#[test]
fn lib_node_can_be_created() {
    let node = Node {
        id: NodeId::from("test-id"),
        role: "button".to_string(),
        name: Some("Click Me".to_string()),
        value: None,
        description: None,
        bounds: None,
        actions: vec![Action::Press],
        children: vec![],
    };

    assert_eq!(node.id.as_str(), "test-id");
    assert_eq!(node.role, "button");
    assert_eq!(node.actions.len(), 1);
}

#[test]
fn node_id_keeps_its_text() {
    assert_eq!(NodeId::new("n1").as_str(), "n1");
    assert_eq!(NodeId::from("n1".to_string()).as_str(), "n1");
    assert_eq!(NodeId::from("").as_str(), "");
    assert_eq!(NodeId::new("n1"), NodeId::from("n1"));
    assert_ne!(NodeId::new("n1"), NodeId::new("n2"));
    let id = NodeId::new("0x7ffee4c0");
    assert_eq!(id.clone(), id);
}

#[test]
fn protocol_version_is_one_point_zero() {
    assert_eq!(PROTOCOL_VERSION, "1.0");
    assert_eq!(Message::PROTOCOL_VERSION, "1.0");
}

#[test]
fn request_envelope_carries_the_version() {
    let requests = vec![
        Request::QueryTree { max_depth: Some(5), max_nodes: Some(100) },
        Request::GetNode { node_id: NodeId::from("test-123") },
        Request::PerformAction { node_id: NodeId::from("n1"), action: Action::Press },
        Request::FindByName { name: "ok".to_string() },
        Request::Initialize { protocol_version: None, capabilities: None },
        Request::ToolsList,
    ];
    for request in requests {
        let message = Message::request(request.clone());
        assert_eq!(message.protocol_version, "1.0");
        assert_eq!(message.content, MessageContent::Request(request));
    }
}

#[test]
fn response_envelope_carries_the_version() {
    let response = Response::Success { result: ResponseData::Node { node: button("n1", "OK") } };
    let message = Message::response(response.clone());
    assert_eq!(message.protocol_version, "1.0");
    assert_eq!(message.content, MessageContent::Response(response));
}

#[test]
fn success_wraps_the_data() {
    let message = Message::success(ResponseData::ActionResult { success: true });
    assert_eq!(message.protocol_version, "1.0");
    assert_eq!(
        message.content,
        MessageContent::Response(Response::Success {
            result: ResponseData::ActionResult { success: true }
        })
    );
}

#[test]
fn error_wraps_code_and_message() {
    let message = Message::error(ErrorCode::NotFound, "no such node".to_string());
    assert_eq!(message.protocol_version, "1.0");
    assert_eq!(
        message.content,
        MessageContent::Response(Response::Error {
            error: ErrorInfo { code: ErrorCode::NotFound, message: "no such node".to_string() }
        })
    );
}

#[test]
fn initialize_carries_capabilities_through() {
    let capabilities = serde_json::Value::Bool(true);
    let request = Request::Initialize {
        protocol_version: Some("1.0".to_string()),
        capabilities: Some(capabilities.clone()),
    };
    match Message::request(request).content {
        MessageContent::Request(Request::Initialize { capabilities: carried, .. }) => {
            assert_eq!(carried, Some(capabilities));
        }
        other => panic!("unexpected content {:?}", other),
    }
}

#[test]
fn scalar_keeps_its_bits() {
    for x in [0.0f64, -0.0, 1.5, -273.15, f64::INFINITY, f64::MAX, f64::MIN_POSITIVE] {
        assert_eq!(f64::from_bits(scalar(x).to_bits()), x);
        assert_eq!(scalar(x).bits, x.to_bits());
    }
    assert!(f64::from_bits(scalar(f64::NAN).to_bits()).is_nan());
}

#[test]
fn scalar_equality_is_the_number_equality() {
    let samples = [
        0.0f64,
        -0.0,
        1.0,
        -1.0,
        1.5,
        f64::INFINITY,
        f64::NEG_INFINITY,
        f64::NAN,
        -f64::NAN,
        f64::MAX,
        f64::MIN_POSITIVE,
        5e-324,
    ];
    for a in samples {
        for b in samples {
            assert_eq!(scalar(a) == scalar(b), a == b, "{} against {}", a, b);
        }
    }
}

#[test]
fn rect_equality_follows_its_coordinates() {
    let a = Rect { x: scalar(0.0), y: scalar(10.0), width: scalar(100.0), height: scalar(20.0) };
    let b = Rect { x: scalar(-0.0), y: scalar(10.0), width: scalar(100.0), height: scalar(20.0) };
    let c = Rect { x: scalar(0.0), y: scalar(10.0), width: scalar(100.0), height: scalar(21.0) };
    let n = Rect { x: scalar(f64::NAN), y: scalar(0.0), width: scalar(0.0), height: scalar(0.0) };
    assert_eq!(a, b);
    assert_ne!(a, c);
    assert_ne!(n, n);
}

#[test]
fn action_equality_follows_its_fields() {
    assert_eq!(Action::Press, Action::Press);
    assert_ne!(Action::Press, Action::Focus);
    assert_eq!(
        Action::SetValue { value: "a".to_string() },
        Action::SetValue { value: "a".to_string() }
    );
    assert_ne!(
        Action::SetValue { value: "a".to_string() },
        Action::Custom { name: "a".to_string() }
    );
    assert_eq!(
        Action::Scroll { x: scalar(1.0), y: scalar(-2.0) },
        Action::Scroll { x: scalar(1.0), y: scalar(-2.0) }
    );
    assert_ne!(
        Action::Scroll { x: scalar(1.0), y: scalar(-2.0) },
        Action::Scroll { x: scalar(1.0), y: scalar(2.0) }
    );
}
