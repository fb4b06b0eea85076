//! What a platform backend decides without touching the platform: how
//! native handles are named and found again, how a node is put together
//! from the attributes of an element, which actions a role offers, which
//! native request an action becomes, and what a native result code means.
//!
//! The calls into the platform's accessibility interface are made by the
//! backend itself; it hands the plain values it got to the functions here.

use crate::protocol::{
    action_views, id_views, text_opt, Action, ActionView, Node, NodeId, NodeView, Rect, Scalar,
};
use crate::provider::ProviderError;
use crate::text::{
    hexadecimal, hexadecimal_text, join, lemma_hexadecimal_reads_back, same_text,
    signed_decimal, signed_decimal_text,
};
use vstd::hash_map::StringHashMap;
use vstd::prelude::*;

verus! {

/// The native call succeeded.
pub const AX_SUCCESS: i32 = 0;

/// The accessibility interface is disabled for this process.
pub const AX_API_DISABLED: i32 = -25208;

/// The element has no such attribute.
pub const AX_NO_VALUE: i32 = -25209;

/// The identifier of the element at the given address: the address as a
/// pointer is written, `0x` before its hexadecimal numeral.
pub open spec fn handle_id(address: u64) -> Seq<char> {
    "0x"@ + hexadecimal(address as nat)
}

/// The identifier of the element at the given address.
pub fn element_node_id(address: u64) -> (r: NodeId)
    ensures
        r@ == handle_id(address),
{
    NodeId::from(join("0x", hexadecimal_text(address).as_str()))
}

/// The table that maps the identifiers given out to the native handles
/// they stand for. A handle is held as its address.
pub struct HandleTable {
    entries: StringHashMap<u64>,
}

impl View for HandleTable {
    type V = Map<Seq<char>, u64>;

    closed spec fn view(&self) -> Map<Seq<char>, u64> {
        self.entries@
    }
}

impl HandleTable {
    /// The empty table.
    pub fn new() -> (r: Self)
        ensures
            r@ == Map::<Seq<char>, u64>::empty(),
    {
        HandleTable { entries: StringHashMap::new() }
    }

    /// Records the element at `address` and returns the identifier it is
    /// known by from now on.
    pub fn remember(&mut self, address: u64) -> (r: NodeId)
        ensures
            r@ == handle_id(address),
            final(self)@ == old(self)@.insert(handle_id(address), address),
    {
        let id = element_node_id(address);
        self.entries.insert(id.as_str().to_string(), address);
        id
    }

    /// Finds the element an identifier stands for. An identifier that was
    /// never given out is not found.
    pub fn resolve(&self, node_id: &NodeId) -> (r: Result<u64, ProviderError>)
        ensures
            match r {
                Ok(address) => self@.contains_key(node_id@) && address == self@[node_id@],
                Err(e) => !self@.contains_key(node_id@) && e@ == "Node ID not found in cache"@,
            },
    {
        match self.entries.get(node_id.as_str()) {
            Some(address) => Ok(*address),
            None => Err(ProviderError::new("Node ID not found in cache")),
        }
    }
}

/// Elements at different addresses have different identifiers, so the
/// table never takes one element for another.
pub proof fn lemma_identifiers_differ(a: u64, b: u64)
    requires
        handle_id(a) == handle_id(b),
    ensures
        a == b,
{
    let prefix = "0x"@;
    let left = hexadecimal(a as nat);
    let right = hexadecimal(b as nat);
    assert((prefix + left).subrange(prefix.len() as int, (prefix + left).len() as int) =~= left);
    assert((prefix + right).subrange(prefix.len() as int, (prefix + right).len() as int)
        =~= right);
    lemma_hexadecimal_reads_back(a as nat);
    lemma_hexadecimal_reads_back(b as nat);
}

/// An element that was recorded is found under the identifier it was given,
/// and recording it hides no other identifier.
pub proof fn lemma_remembered_is_resolved(table: Map<Seq<char>, u64>, address: u64, other: Seq<char>)
    ensures
        table.insert(handle_id(address), address).contains_key(handle_id(address)),
        table.insert(handle_id(address), address)[handle_id(address)] == address,
        table.contains_key(other) ==> table.insert(handle_id(address), address).contains_key(
            other,
        ),
{
}

/// What the result of reading an attribute means.
#[derive(Debug, Clone, Copy, PartialEq, Eq, Structural)]
pub enum AttributeStatus {
    /// The accessibility interface is disabled: the process lacks the
    /// permission.
    ApiDisabled,
    /// The element has no such attribute, which is normal.
    NoValue,
    /// The attribute was read and has a value.
    Present,
    /// The call succeeded but gave no value.
    Empty,
    /// The call failed with another code.
    Failed,
}

/// Classifies the result of reading an attribute: the code the native call
/// returned, and whether it gave a value.
pub fn attribute_status(code: i32, has_value: bool) -> (r: AttributeStatus)
    ensures
        r == if code == AX_API_DISABLED {
            AttributeStatus::ApiDisabled
        } else if code == AX_NO_VALUE {
            AttributeStatus::NoValue
        } else if code != AX_SUCCESS {
            AttributeStatus::Failed
        } else if has_value {
            AttributeStatus::Present
        } else {
            AttributeStatus::Empty
        },
{
    if code == AX_API_DISABLED {
        AttributeStatus::ApiDisabled
    } else if code == AX_NO_VALUE {
        AttributeStatus::NoValue
    } else if code != AX_SUCCESS {
        AttributeStatus::Failed
    } else if has_value {
        AttributeStatus::Present
    } else {
        AttributeStatus::Empty
    }
}

/// The actions a role offers.
pub open spec fn role_actions(role: Seq<char>) -> Seq<ActionView> {
    if role == "AXButton"@ {
        seq![ActionView::Press, ActionView::Focus]
    } else if role == "AXTextField"@ {
        seq![ActionView::Focus, ActionView::SetValue { value: Seq::empty() }]
    } else if role == "AXCheckBox"@ {
        seq![ActionView::Press, ActionView::Focus]
    } else if role == "AXSlider"@ {
        seq![ActionView::Focus, ActionView::Increment, ActionView::Decrement]
    } else {
        seq![ActionView::Focus]
    }
}

/// Determines the actions available on an element from its role.
pub fn determine_actions(role: &str) -> (r: Vec<Action>)
    ensures
        action_views(r@) == role_actions(role@),
{
    let mut actions: Vec<Action> = Vec::new();
    if same_text(role, "AXButton") {
        actions.push(Action::Press);
        actions.push(Action::Focus);
    } else if same_text(role, "AXTextField") {
        actions.push(Action::Focus);
        actions.push(Action::SetValue { value: String::new() });
    } else if same_text(role, "AXCheckBox") {
        actions.push(Action::Press);
        actions.push(Action::Focus);
    } else if same_text(role, "AXSlider") {
        actions.push(Action::Focus);
        actions.push(Action::Increment);
        actions.push(Action::Decrement);
    } else {
        actions.push(Action::Focus);
    }
    actions
}

/// The role of an element whose role attribute could not be read.
pub const UNKNOWN_ROLE: &'static str = "unknown";

/// The bounds of an element: known only where both its position and its
/// size are.
pub open spec fn bounds_of(
    position: Option<(Scalar, Scalar)>,
    size: Option<(Scalar, Scalar)>,
) -> Option<Rect> {
    match (position, size) {
        (Some((x, y)), Some((width, height))) => Some(Rect { x, y, width, height }),
        _ => None,
    }
}

/// The node that stands for an element with the given attributes.
pub open spec fn node_of(
    id: Seq<char>,
    role: Option<Seq<char>>,
    name: Option<Seq<char>>,
    value: Option<Seq<char>>,
    description: Option<Seq<char>>,
    position: Option<(Scalar, Scalar)>,
    size: Option<(Scalar, Scalar)>,
    children: Seq<Seq<char>>,
) -> NodeView {
    let role = match role {
        Some(r) => r,
        None => UNKNOWN_ROLE@,
    };
    NodeView {
        id,
        role,
        name,
        value,
        description,
        bounds: bounds_of(position, size),
        actions: role_actions(role),
        children,
    }
}

/// Puts a node together from what was read of an element: a missing role
/// becomes `unknown`, the bounds need both position and size, and the
/// actions follow from the role.
pub fn assemble_node(
    id: NodeId,
    role: Option<String>,
    name: Option<String>,
    value: Option<String>,
    description: Option<String>,
    position: Option<(Scalar, Scalar)>,
    size: Option<(Scalar, Scalar)>,
    children: Vec<NodeId>,
) -> (r: Node)
    ensures
        r@ == node_of(
            id@,
            text_opt(role),
            text_opt(name),
            text_opt(value),
            text_opt(description),
            position,
            size,
            id_views(children@),
        ),
{
    let role = match role {
        Some(r) => r,
        None => UNKNOWN_ROLE.to_string(),
    };
    let bounds = match (position, size) {
        (Some((x, y)), Some((width, height))) => Some(Rect { x, y, width, height }),
        _ => None,
    };
    let actions = determine_actions(role.as_str());
    Node { id, role, name, value, description, bounds, actions, children }
}

/// The native request an action becomes.
#[derive(Debug, Clone, PartialEq, Eq)]
pub enum AxRequest {
    /// Perform the native action with this name on the element.
    Perform { action: String },
    /// Set this attribute of the element to this value.
    SetAttribute { attribute: String, value: String },
    /// Nothing can be asked of the platform: the action fails with this
    /// reason.
    Unsupported { reason: String },
}

/// The view of an [`AxRequest`].
pub enum AxRequestView {
    Perform { action: Seq<char> },
    SetAttribute { attribute: Seq<char>, value: Seq<char> },
    Unsupported { reason: Seq<char> },
}

impl View for AxRequest {
    type V = AxRequestView;

    open spec fn view(&self) -> AxRequestView {
        match *self {
            AxRequest::Perform { action } => AxRequestView::Perform { action: action@ },
            AxRequest::SetAttribute { attribute, value } => AxRequestView::SetAttribute {
                attribute: attribute@,
                value: value@,
            },
            AxRequest::Unsupported { reason } => AxRequestView::Unsupported { reason: reason@ },
        }
    }
}

/// The native request for each action.
pub open spec fn request_of(action: ActionView) -> AxRequestView {
    match action {
        ActionView::Press => AxRequestView::Perform { action: "AXPress"@ },
        ActionView::Focus => AxRequestView::Perform { action: "AXRaise"@ },
        ActionView::Increment => AxRequestView::Perform { action: "AXIncrement"@ },
        ActionView::Decrement => AxRequestView::Perform { action: "AXDecrement"@ },
        ActionView::SetValue { value } => AxRequestView::SetAttribute {
            attribute: "AXValue"@,
            value,
        },
        ActionView::Scroll { .. } => AxRequestView::Unsupported {
            reason: "Scroll action not yet implemented for macOS"@,
        },
        ActionView::ContextMenu => AxRequestView::Perform { action: "AXShowMenu"@ },
        ActionView::Custom { name } => AxRequestView::Perform { action: name },
    }
}

/// Turns an action into the native request that carries it out.
pub fn ax_request(action: &Action) -> (r: AxRequest)
    ensures
        r@ == request_of(action@),
{
    match action {
        Action::Press => AxRequest::Perform { action: "AXPress".to_string() },
        Action::Focus => AxRequest::Perform { action: "AXRaise".to_string() },
        Action::Increment => AxRequest::Perform { action: "AXIncrement".to_string() },
        Action::Decrement => AxRequest::Perform { action: "AXDecrement".to_string() },
        Action::SetValue { value } => AxRequest::SetAttribute {
            attribute: "AXValue".to_string(),
            value: value.clone(),
        },
        Action::Scroll { .. } => AxRequest::Unsupported {
            reason: "Scroll action not yet implemented for macOS".to_string(),
        },
        Action::ContextMenu => AxRequest::Perform { action: "AXShowMenu".to_string() },
        Action::Custom { name } => AxRequest::Perform { action: name.clone() },
    }
}

/// What the failure of an action is called in its message.
pub open spec fn failure_label(action: ActionView) -> Seq<char> {
    match action {
        ActionView::Press => "Failed to perform press action"@,
        ActionView::Focus => "Failed to perform focus action"@,
        ActionView::Increment => "Failed to perform increment action"@,
        ActionView::Decrement => "Failed to perform decrement action"@,
        ActionView::SetValue { .. } => "Failed to set value"@,
        ActionView::Scroll { .. } => "Scroll action not yet implemented for macOS"@,
        ActionView::ContextMenu => "Failed to show context menu"@,
        ActionView::Custom { name } => "Failed to perform custom action '"@ + name + "'"@,
    }
}

/// What an action came to, given the code its native request returned: a
/// scroll fails whatever the code, any other action succeeds on the success
/// code and fails on every other code, with the code in the message.
pub open spec fn outcome_of(action: ActionView, code: i32) -> Result<(), Seq<char>> {
    if action is Scroll {
        Err(failure_label(action))
    } else if code == AX_SUCCESS {
        Ok(())
    } else {
        Err(failure_label(action) + ": error code "@ + signed_decimal(code as int))
    }
}

/// The label of an action's failure.
fn failure_label_text(action: &Action) -> (r: String)
    ensures
        r@ == failure_label(action@),
{
    match action {
        Action::Press => "Failed to perform press action".to_string(),
        Action::Focus => "Failed to perform focus action".to_string(),
        Action::Increment => "Failed to perform increment action".to_string(),
        Action::Decrement => "Failed to perform decrement action".to_string(),
        Action::SetValue { .. } => "Failed to set value".to_string(),
        Action::Scroll { .. } => "Scroll action not yet implemented for macOS".to_string(),
        Action::ContextMenu => "Failed to show context menu".to_string(),
        Action::Custom { name } => join("Failed to perform custom action '", name.as_str()).concat(
            "'",
        ),
    }
}

/// Judges what an action came to from the code its native request
/// returned.
pub fn action_outcome(action: &Action, code: i32) -> (r: Result<(), ProviderError>)
    ensures
        crate::provider::action_answer(r) == outcome_of(action@, code),
{
    let label = failure_label_text(action);
    match action {
        Action::Scroll { .. } => Err(ProviderError { message: label }),
        _ => {
            if code == AX_SUCCESS {
                Ok(())
            } else {
                let message = label.concat(": error code ").concat(
                    signed_decimal_text(code as i64).as_str(),
                );
                Err(ProviderError { message })
            }
        },
    }
}

} // verus!
