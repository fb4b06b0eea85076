use accessibility_mcp::platform::{
    action_outcome, assemble_node, attribute_status, ax_request, determine_actions,
    element_node_id, AttributeStatus, AxRequest, HandleTable, AX_API_DISABLED, AX_NO_VALUE,
    AX_SUCCESS,
};
use accessibility_mcp::protocol::{Action, NodeId, Rect, Scalar};
use accessibility_mcp::provider::ProviderError;

fn scalar(x: f64) -> Scalar {
    Scalar::from_bits(x.to_bits())
}

fn failed(message: &str) -> Result<(), ProviderError> {
    Err(ProviderError::new(message))
}

#[test]
fn identifier_is_the_address_as_a_pointer() {
    assert_eq!(element_node_id(0x7ffee4c0).as_str(), "0x7ffee4c0");
    assert_eq!(element_node_id(0).as_str(), "0x0");
    assert_eq!(element_node_id(u64::MAX).as_str(), "0xffffffffffffffff");
    for address in [1u64, 0x10, 0xdead_beef, 0x6000_0123_4560] {
        assert_eq!(element_node_id(address).as_str(), format!("{:#x}", address));
    }
}

#[test]
fn remembered_element_is_resolved() {
    let mut table = HandleTable::new();
    let first = table.remember(0x1000);
    let second = table.remember(0x2000);
    assert_eq!(first.as_str(), "0x1000");
    assert_eq!(second.as_str(), "0x2000");
    assert_eq!(table.resolve(&first), Ok(0x1000));
    assert_eq!(table.resolve(&second), Ok(0x2000));
    assert_eq!(table.resolve(&NodeId::from("0x1000")), Ok(0x1000));
}

#[test]
fn remembering_twice_keeps_one_entry() {
    let mut table = HandleTable::new();
    let first = table.remember(0x1000);
    let again = table.remember(0x1000);
    assert_eq!(first, again);
    assert_eq!(table.resolve(&again), Ok(0x1000));
}

#[test]
fn unknown_identifier_is_not_resolved() {
    let mut table = HandleTable::new();
    assert_eq!(
        table.resolve(&NodeId::from("0x1000")),
        Err(ProviderError::new("Node ID not found in cache"))
    );
    table.remember(0x1000);
    assert_eq!(
        table.resolve(&NodeId::from("missing")),
        Err(ProviderError::new("Node ID not found in cache"))
    );
    assert_eq!(
        table.resolve(&NodeId::from("0X1000")),
        Err(ProviderError::new("Node ID not found in cache"))
    );
}

#[test]
fn attribute_codes() {
    assert_eq!(AX_SUCCESS, 0);
    assert_eq!(AX_API_DISABLED, -25208);
    assert_eq!(AX_NO_VALUE, -25209);
    assert_eq!(attribute_status(-25208, false), AttributeStatus::ApiDisabled);
    assert_eq!(attribute_status(-25208, true), AttributeStatus::ApiDisabled);
    assert_eq!(attribute_status(-25209, false), AttributeStatus::NoValue);
    assert_eq!(attribute_status(-25209, true), AttributeStatus::NoValue);
    assert_eq!(attribute_status(0, true), AttributeStatus::Present);
    assert_eq!(attribute_status(0, false), AttributeStatus::Empty);
    assert_eq!(attribute_status(-25205, false), AttributeStatus::Failed);
    assert_eq!(attribute_status(-25205, true), AttributeStatus::Failed);
    assert_eq!(attribute_status(1, true), AttributeStatus::Failed);
}

#[test]
fn actions_follow_the_role() {
    assert_eq!(determine_actions("AXButton"), vec![Action::Press, Action::Focus]);
    assert_eq!(
        determine_actions("AXTextField"),
        vec![Action::Focus, Action::SetValue { value: String::new() }]
    );
    assert_eq!(determine_actions("AXCheckBox"), vec![Action::Press, Action::Focus]);
    assert_eq!(
        determine_actions("AXSlider"),
        vec![Action::Focus, Action::Increment, Action::Decrement]
    );
    assert_eq!(determine_actions("AXWindow"), vec![Action::Focus]);
    assert_eq!(determine_actions("unknown"), vec![Action::Focus]);
    assert_eq!(determine_actions(""), vec![Action::Focus]);
    assert_eq!(determine_actions("axbutton"), vec![Action::Focus]);
}

#[test]
fn node_is_put_together_from_its_attributes() {
    let node = assemble_node(
        NodeId::from("0x1000"),
        Some("AXSlider".to_string()),
        Some("Volume".to_string()),
        Some("40".to_string()),
        Some("Output volume".to_string()),
        Some((scalar(10.0), scalar(20.0))),
        Some((scalar(200.0), scalar(16.0))),
        vec![NodeId::from("0x2000"), NodeId::from("0x3000")],
    );
    assert_eq!(node.id.as_str(), "0x1000");
    assert_eq!(node.role, "AXSlider");
    assert_eq!(node.name, Some("Volume".to_string()));
    assert_eq!(node.value, Some("40".to_string()));
    assert_eq!(node.description, Some("Output volume".to_string()));
    assert_eq!(
        node.bounds,
        Some(Rect {
            x: scalar(10.0),
            y: scalar(20.0),
            width: scalar(200.0),
            height: scalar(16.0)
        })
    );
    assert_eq!(node.actions, vec![Action::Focus, Action::Increment, Action::Decrement]);
    assert_eq!(node.children, vec![NodeId::from("0x2000"), NodeId::from("0x3000")]);
}

#[test]
fn missing_role_is_unknown() {
    let node = assemble_node(NodeId::from("0x1"), None, None, None, None, None, None, vec![]);
    assert_eq!(node.role, "unknown");
    assert_eq!(node.actions, vec![Action::Focus]);
    assert_eq!(node.name, None);
    assert_eq!(node.value, None);
    assert_eq!(node.description, None);
    assert_eq!(node.bounds, None);
    assert!(node.children.is_empty());
}

#[test]
fn bounds_need_position_and_size() {
    let position = Some((scalar(1.0), scalar(2.0)));
    let size = Some((scalar(3.0), scalar(4.0)));
    let bounds = |p, s| assemble_node(NodeId::from("x"), None, None, None, None, p, s, vec![]).bounds;
    assert_eq!(bounds(position, None), None);
    assert_eq!(bounds(None, size), None);
    assert_eq!(bounds(None, None), None);
    assert_eq!(
        bounds(position, size),
        Some(Rect { x: scalar(1.0), y: scalar(2.0), width: scalar(3.0), height: scalar(4.0) })
    );
}

fn perform(action: &str) -> AxRequest {
    AxRequest::Perform { action: action.to_string() }
}

#[test]
fn native_request_for_each_action() {
    assert_eq!(ax_request(&Action::Press), perform("AXPress"));
    assert_eq!(ax_request(&Action::Focus), perform("AXRaise"));
    assert_eq!(ax_request(&Action::Increment), perform("AXIncrement"));
    assert_eq!(ax_request(&Action::Decrement), perform("AXDecrement"));
    assert_eq!(ax_request(&Action::ContextMenu), perform("AXShowMenu"));
    assert_eq!(ax_request(&Action::Custom { name: "AXZoom".to_string() }), perform("AXZoom"));
    assert_eq!(
        ax_request(&Action::SetValue { value: "hello".to_string() }),
        AxRequest::SetAttribute { attribute: "AXValue".to_string(), value: "hello".to_string() }
    );
    assert_eq!(
        ax_request(&Action::Scroll { x: scalar(0.0), y: scalar(12.0) }),
        AxRequest::Unsupported { reason: "Scroll action not yet implemented for macOS".to_string() }
    );
}

#[test]
fn success_code_is_success() {
    let actions = [
        Action::Press,
        Action::Focus,
        Action::Increment,
        Action::Decrement,
        Action::SetValue { value: "v".to_string() },
        Action::ContextMenu,
        Action::Custom { name: "AXZoom".to_string() },
    ];
    for action in actions {
        assert_eq!(action_outcome(&action, 0), Ok(()), "{:?}", action);
    }
}

#[test]
fn other_codes_fail_with_the_code() {
    assert_eq!(
        action_outcome(&Action::Press, -25205),
        failed("Failed to perform press action: error code -25205")
    );
    assert_eq!(
        action_outcome(&Action::Focus, -25204),
        failed("Failed to perform focus action: error code -25204")
    );
    assert_eq!(
        action_outcome(&Action::Increment, -25206),
        failed("Failed to perform increment action: error code -25206")
    );
    assert_eq!(
        action_outcome(&Action::Decrement, 1),
        failed("Failed to perform decrement action: error code 1")
    );
    assert_eq!(
        action_outcome(&Action::SetValue { value: "v".to_string() }, -25208),
        failed("Failed to set value: error code -25208")
    );
    assert_eq!(
        action_outcome(&Action::ContextMenu, i32::MIN),
        failed("Failed to show context menu: error code -2147483648")
    );
    assert_eq!(
        action_outcome(&Action::Custom { name: "AXZoom".to_string() }, i32::MAX),
        failed("Failed to perform custom action 'AXZoom': error code 2147483647")
    );
}

#[test]
fn scroll_fails_whatever_the_code() {
    let scroll = Action::Scroll { x: scalar(1.0), y: scalar(2.0) };
    assert_eq!(action_outcome(&scroll, 0), failed("Scroll action not yet implemented for macOS"));
    assert_eq!(
        action_outcome(&scroll, -25205),
        failed("Scroll action not yet implemented for macOS")
    );
}
