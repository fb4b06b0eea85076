//! Protocol data model: identifiers, nodes, requests, responses and the
//! versioned envelope.
//!
//! Every type has a view made of `Seq`, `Option` and plain values; the
//! contracts of the crate are stated over those views.

use vstd::prelude::*;
use vstd::std_specs::cmp::PartialEqSpecImpl;
use vstd::std_specs::convert::FromSpecImpl;

verus! {

/// The protocol version that every envelope built by this crate carries and
/// that every incoming request has to declare.
pub const PROTOCOL_VERSION: &'static str = "1.0";

/// `serde_json::Value`: an arbitrary JSON document. This crate only carries
/// such values from a request to whoever reads the request; it never looks
/// inside one.
#[verifier::external_type_specification]
#[verifier::external_body]
pub struct ExJsonValue(serde_json::Value);

/// A unique identifier for an accessibility node.
///
/// The text is assigned by the provider and is opaque to this crate. Two
/// identifiers are equal when their texts are.
#[derive(Debug, Eq, Hash)]
pub struct NodeId(String);

impl View for NodeId {
    type V = Seq<char>;

    closed spec fn view(&self) -> Seq<char> {
        self.0@
    }
}

impl NodeId {
    /// Wraps an identifier text.
    pub fn new(id: &str) -> (r: Self)
        ensures
            r@ == id@,
    {
        NodeId(id.to_string())
    }

    /// The identifier text.
    pub fn as_str(&self) -> (r: &str)
        ensures
            r@ == self@,
    {
        self.0.as_str()
    }
}

impl Clone for NodeId {
    fn clone(&self) -> (r: Self)
        ensures
            r@ == self@,
    {
        NodeId(self.0.clone())
    }
}

impl PartialEq for NodeId {
    fn eq(&self, other: &Self) -> (r: bool) {
        self.0 == other.0
    }
}

impl PartialEqSpecImpl for NodeId {
    open spec fn obeys_eq_spec() -> bool {
        true
    }

    open spec fn eq_spec(&self, other: &Self) -> bool {
        self@ == other@
    }
}

impl From<String> for NodeId {
    fn from(s: String) -> (r: Self)
        ensures
            r@ == s@,
    {
        NodeId(s)
    }
}

impl FromSpecImpl<String> for NodeId {
    open spec fn obeys_from_spec() -> bool {
        false
    }

    open spec fn from_spec(s: String) -> Self {
        arbitrary()
    }
}

impl<'a> From<&'a str> for NodeId {
    fn from(s: &'a str) -> (r: Self)
        ensures
            r@ == s@,
    {
        NodeId(s.to_string())
    }
}

impl<'a> FromSpecImpl<&'a str> for NodeId {
    open spec fn obeys_from_spec() -> bool {
        false
    }

    open spec fn from_spec(s: &'a str) -> Self {
        arbitrary()
    }
}

/// A 64-bit IEEE-754 quantity, held as its bit pattern.
///
/// Coordinates and scroll amounts pass through this crate untouched, so no
/// arithmetic is ever done on them; only equality is defined, and it is the
/// IEEE one: a NaN equals nothing, and the two zeros are equal.
#[derive(Debug, Clone, Copy)]
pub struct Scalar {
    pub bits: u64,
}

/// Mask that clears the sign bit of a bit pattern.
pub const MAGNITUDE_MASK: u64 = 0x7fff_ffff_ffff_ffff;

/// The magnitude of positive infinity; every larger magnitude is a NaN.
pub const INFINITY_MAGNITUDE: u64 = 0x7ff0_0000_0000_0000;

impl Scalar {
    /// The bit pattern without its sign.
    pub open spec fn magnitude(self) -> u64 {
        self.bits & MAGNITUDE_MASK
    }

    /// Whether the pattern encodes a NaN.
    pub open spec fn is_nan(self) -> bool {
        self.magnitude() > INFINITY_MAGNITUDE
    }

    /// IEEE equality of two patterns.
    pub open spec fn same_number(self, other: Scalar) -> bool {
        &&& !self.is_nan()
        &&& !other.is_nan()
        &&& (self.bits == other.bits || (self.magnitude() == 0 && other.magnitude() == 0))
    }

    /// The quantity with the given bit pattern.
    pub fn from_bits(bits: u64) -> (r: Self)
        ensures
            r.bits == bits,
    {
        Scalar { bits }
    }

    /// The bit pattern of the quantity.
    pub fn to_bits(&self) -> (r: u64)
        ensures
            r == self.bits,
    {
        self.bits
    }
}

impl PartialEq for Scalar {
    fn eq(&self, other: &Self) -> (r: bool) {
        let a: u64 = self.bits & MAGNITUDE_MASK;
        let b: u64 = other.bits & MAGNITUDE_MASK;
        a <= INFINITY_MAGNITUDE && b <= INFINITY_MAGNITUDE && (self.bits == other.bits || (a == 0
            && b == 0))
    }
}

impl PartialEqSpecImpl for Scalar {
    open spec fn obeys_eq_spec() -> bool {
        true
    }

    open spec fn eq_spec(&self, other: &Self) -> bool {
        self.same_number(*other)
    }
}

/// Rectangle representing the bounds of a node in screen coordinates.
/// Origin is the top-left corner.
#[derive(Debug, Clone, Copy, PartialEq)]
pub struct Rect {
    pub x: Scalar,
    pub y: Scalar,
    pub width: Scalar,
    pub height: Scalar,
}

/// Actions that can be performed on accessibility nodes.
#[derive(Debug, Clone, PartialEq)]
pub enum Action {
    /// Set focus to this element
    Focus,
    /// Press/activate this element (click, invoke)
    Press,
    /// Increment a numeric value
    Increment,
    /// Decrement a numeric value
    Decrement,
    /// Set a text value
    SetValue { value: String },
    /// Scroll by given amounts
    Scroll { x: Scalar, y: Scalar },
    /// Open context menu
    ContextMenu,
    /// Platform-specific custom action
    Custom { name: String },
}

/// The view of an [`Action`].
pub enum ActionView {
    Focus,
    Press,
    Increment,
    Decrement,
    SetValue { value: Seq<char> },
    Scroll { x: Scalar, y: Scalar },
    ContextMenu,
    Custom { name: Seq<char> },
}

impl View for Action {
    type V = ActionView;

    open spec fn view(&self) -> ActionView {
        match *self {
            Action::Focus => ActionView::Focus,
            Action::Press => ActionView::Press,
            Action::Increment => ActionView::Increment,
            Action::Decrement => ActionView::Decrement,
            Action::SetValue { value } => ActionView::SetValue { value: value@ },
            Action::Scroll { x, y } => ActionView::Scroll { x, y },
            Action::ContextMenu => ActionView::ContextMenu,
            Action::Custom { name } => ActionView::Custom { name: name@ },
        }
    }
}

/// The view of an optional text.
pub open spec fn text_opt(o: Option<String>) -> Option<Seq<char>> {
    match o {
        Some(s) => Some(s@),
        None => None,
    }
}

/// The views of a sequence of texts.
pub open spec fn text_views(texts: Seq<String>) -> Seq<Seq<char>> {
    texts.map_values(|s: String| s@)
}

/// The views of a sequence of identifiers.
pub open spec fn id_views(ids: Seq<NodeId>) -> Seq<Seq<char>> {
    ids.map_values(|id: NodeId| id@)
}

/// The views of a sequence of actions.
pub open spec fn action_views(actions: Seq<Action>) -> Seq<ActionView> {
    actions.map_values(|a: Action| a@)
}

/// The views of a sequence of nodes.
pub open spec fn node_views(nodes: Seq<Node>) -> Seq<NodeView> {
    nodes.map_values(|n: Node| n@)
}

/// An accessibility tree node with normalized properties.
///
/// Children are named by identifier, not embedded: a tree is walked by
/// asking the provider for one node after another.
#[derive(Debug, Clone, PartialEq)]
pub struct Node {
    pub id: NodeId,
    pub role: String,
    pub name: Option<String>,
    pub value: Option<String>,
    pub description: Option<String>,
    pub bounds: Option<Rect>,
    pub actions: Vec<Action>,
    pub children: Vec<NodeId>,
}

/// The view of a [`Node`].
pub struct NodeView {
    pub id: Seq<char>,
    pub role: Seq<char>,
    pub name: Option<Seq<char>>,
    pub value: Option<Seq<char>>,
    pub description: Option<Seq<char>>,
    pub bounds: Option<Rect>,
    pub actions: Seq<ActionView>,
    pub children: Seq<Seq<char>>,
}

impl View for Node {
    type V = NodeView;

    open spec fn view(&self) -> NodeView {
        NodeView {
            id: self.id@,
            role: self.role@,
            name: text_opt(self.name),
            value: text_opt(self.value),
            description: text_opt(self.description),
            bounds: self.bounds,
            actions: action_views(self.actions@),
            children: id_views(self.children@),
        }
    }
}

/// Request kinds.
#[derive(Debug, Clone, PartialEq)]
pub enum Request {
    /// Query the accessibility tree
    QueryTree { max_depth: Option<usize>, max_nodes: Option<usize> },
    /// Get a specific node by ID
    GetNode { node_id: NodeId },
    /// Perform an action on a node
    PerformAction { node_id: NodeId, action: Action },
    /// Find nodes by name (case-insensitive substring match)
    FindByName { name: String },
    /// Open a session, optionally declaring the client's version
    Initialize { protocol_version: Option<String>, capabilities: Option<serde_json::Value> },
    /// List the tools the server offers
    ToolsList,
}

/// The view of a [`Request`].
pub enum RequestView {
    QueryTree { max_depth: Option<usize>, max_nodes: Option<usize> },
    GetNode { node_id: Seq<char> },
    PerformAction { node_id: Seq<char>, action: ActionView },
    FindByName { name: Seq<char> },
    Initialize { protocol_version: Option<Seq<char>>, capabilities: Option<serde_json::Value> },
    ToolsList,
}

impl View for Request {
    type V = RequestView;

    open spec fn view(&self) -> RequestView {
        match *self {
            Request::QueryTree { max_depth, max_nodes } => RequestView::QueryTree {
                max_depth,
                max_nodes,
            },
            Request::GetNode { node_id } => RequestView::GetNode { node_id: node_id@ },
            Request::PerformAction { node_id, action } => RequestView::PerformAction {
                node_id: node_id@,
                action: action@,
            },
            Request::FindByName { name } => RequestView::FindByName { name: name@ },
            Request::Initialize { protocol_version, capabilities } => RequestView::Initialize {
                protocol_version: text_opt(protocol_version),
                capabilities,
            },
            Request::ToolsList => RequestView::ToolsList,
        }
    }
}

/// The closed set of error codes.
#[derive(Debug, Clone, Copy, PartialEq, Eq, Structural)]
pub enum ErrorCode {
    NotFound,
    PermissionDenied,
    Transient,
    InvalidAction,
    Internal,
}

/// What went wrong: a code and a human-readable message.
#[derive(Debug, Clone, PartialEq)]
pub struct ErrorInfo {
    pub code: ErrorCode,
    pub message: String,
}

/// The view of an [`ErrorInfo`].
pub struct ErrorInfoView {
    pub code: ErrorCode,
    pub message: Seq<char>,
}

impl View for ErrorInfo {
    type V = ErrorInfoView;

    open spec fn view(&self) -> ErrorInfoView {
        ErrorInfoView { code: self.code, message: self.message@ }
    }
}

/// Whether the tool list can change during a session.
#[derive(Debug, Clone, Copy, PartialEq, Eq, Structural)]
pub struct ToolsCapability {
    pub list_changed: bool,
}

/// What the server is able to do.
#[derive(Debug, Clone, Copy, PartialEq, Eq, Structural)]
pub struct Capabilities {
    pub tools: Option<ToolsCapability>,
}

/// Name and version of the server.
#[derive(Debug, Clone, PartialEq)]
pub struct ServerInfo {
    pub name: String,
    pub version: String,
}

/// The view of a [`ServerInfo`].
pub struct ServerInfoView {
    pub name: Seq<char>,
    pub version: Seq<char>,
}

impl View for ServerInfo {
    type V = ServerInfoView;

    open spec fn view(&self) -> ServerInfoView {
        ServerInfoView { name: self.name@, version: self.version@ }
    }
}

/// The JSON type of a value that a tool accepts.
#[derive(Debug, Clone, Copy, PartialEq, Eq, Structural)]
pub enum SchemaType {
    Object,
    String,
    Integer,
}

/// One member of an object-valued parameter.
#[derive(Debug, Clone, PartialEq)]
pub struct Field {
    pub name: String,
    pub kind: SchemaType,
    /// The values the member may take, where they are enumerated.
    pub choices: Option<Vec<String>>,
}

/// One named parameter of a tool.
///
/// `fields` and `required` describe the members of an object-valued
/// parameter; for any other kind `fields` is empty and `required` absent.
#[derive(Debug, Clone, PartialEq)]
pub struct Parameter {
    pub name: String,
    pub kind: SchemaType,
    pub description: String,
    pub fields: Vec<Field>,
    pub required: Option<Vec<String>>,
}

/// A JSON-schema-shaped description of the object a tool takes as input.
///
/// `required` is absent, not empty, where no parameter is mandatory.
#[derive(Debug, Clone, PartialEq)]
pub struct InputSchema {
    pub properties: Vec<Parameter>,
    pub required: Option<Vec<String>>,
}

/// The view of a [`Field`].
pub struct FieldView {
    pub name: Seq<char>,
    pub kind: SchemaType,
    pub choices: Option<Seq<Seq<char>>>,
}

/// The view of a [`Parameter`].
pub struct ParameterView {
    pub name: Seq<char>,
    pub kind: SchemaType,
    pub description: Seq<char>,
    pub fields: Seq<FieldView>,
    pub required: Option<Seq<Seq<char>>>,
}

/// The view of an [`InputSchema`].
pub struct InputSchemaView {
    pub properties: Seq<ParameterView>,
    pub required: Option<Seq<Seq<char>>>,
}

/// The views of an optional list of texts.
pub open spec fn text_list_opt(o: Option<Vec<String>>) -> Option<Seq<Seq<char>>> {
    match o {
        Some(v) => Some(text_views(v@)),
        None => None,
    }
}

impl View for Field {
    type V = FieldView;

    open spec fn view(&self) -> FieldView {
        FieldView { name: self.name@, kind: self.kind, choices: text_list_opt(self.choices) }
    }
}

/// The views of a sequence of fields.
pub open spec fn field_views(fields: Seq<Field>) -> Seq<FieldView> {
    fields.map_values(|f: Field| f@)
}

impl View for Parameter {
    type V = ParameterView;

    open spec fn view(&self) -> ParameterView {
        ParameterView {
            name: self.name@,
            kind: self.kind,
            description: self.description@,
            fields: field_views(self.fields@),
            required: text_list_opt(self.required),
        }
    }
}

/// The views of a sequence of parameters.
pub open spec fn parameter_views(params: Seq<Parameter>) -> Seq<ParameterView> {
    params.map_values(|p: Parameter| p@)
}

impl View for InputSchema {
    type V = InputSchemaView;

    open spec fn view(&self) -> InputSchemaView {
        InputSchemaView {
            properties: parameter_views(self.properties@),
            required: text_list_opt(self.required),
        }
    }
}

/// A tool the server offers: its name, what it does and what it takes.
#[derive(Debug, Clone, PartialEq)]
pub struct Tool {
    pub name: String,
    pub description: String,
    pub input_schema: InputSchema,
}

/// The view of a [`Tool`].
pub struct ToolView {
    pub name: Seq<char>,
    pub description: Seq<char>,
    pub input_schema: InputSchemaView,
}

impl View for Tool {
    type V = ToolView;

    open spec fn view(&self) -> ToolView {
        ToolView {
            name: self.name@,
            description: self.description@,
            input_schema: self.input_schema@,
        }
    }
}

/// The views of a sequence of tools.
pub open spec fn tool_views(tools: Seq<Tool>) -> Seq<ToolView> {
    tools.map_values(|t: Tool| t@)
}

/// What a successful response carries.
#[derive(Debug, Clone, PartialEq)]
pub enum ResponseData {
    /// The tree, as the nodes fetched for it
    Tree { nodes: Vec<Node> },
    /// A single node
    Node { node: Node },
    /// Whether an action was carried out
    ActionResult { success: bool },
    /// The nodes a search found
    Nodes { nodes: Vec<Node> },
    /// The answer to `Initialize`
    Initialize { protocol_version: String, capabilities: Capabilities, server_info: ServerInfo },
    /// The tool catalog
    Tools { tools: Vec<Tool> },
}

/// The view of a [`ResponseData`].
pub enum ResponseDataView {
    Tree { nodes: Seq<NodeView> },
    Node { node: NodeView },
    ActionResult { success: bool },
    Nodes { nodes: Seq<NodeView> },
    Initialize { protocol_version: Seq<char>, capabilities: Capabilities, server_info: ServerInfoView },
    Tools { tools: Seq<ToolView> },
}

impl View for ResponseData {
    type V = ResponseDataView;

    open spec fn view(&self) -> ResponseDataView {
        match *self {
            ResponseData::Tree { nodes } => ResponseDataView::Tree { nodes: node_views(nodes@) },
            ResponseData::Node { node } => ResponseDataView::Node { node: node@ },
            ResponseData::ActionResult { success } => ResponseDataView::ActionResult { success },
            ResponseData::Nodes { nodes } => ResponseDataView::Nodes { nodes: node_views(nodes@) },
            ResponseData::Initialize {
                protocol_version,
                capabilities,
                server_info,
            } => ResponseDataView::Initialize {
                protocol_version: protocol_version@,
                capabilities,
                server_info: server_info@,
            },
            ResponseData::Tools { tools } => ResponseDataView::Tools { tools: tool_views(tools@) },
        }
    }
}

/// Response kinds.
#[derive(Debug, Clone, PartialEq)]
pub enum Response {
    Success { result: ResponseData },
    Error { error: ErrorInfo },
}

/// The view of a [`Response`].
pub enum ResponseView {
    Success { result: ResponseDataView },
    Error { error: ErrorInfoView },
}

impl View for Response {
    type V = ResponseView;

    open spec fn view(&self) -> ResponseView {
        match *self {
            Response::Success { result } => ResponseView::Success { result: result@ },
            Response::Error { error } => ResponseView::Error { error: error@ },
        }
    }
}

/// The error response with the given code and message.
pub open spec fn error_response(code: ErrorCode, message: Seq<char>) -> ResponseView {
    ResponseView::Error { error: ErrorInfoView { code, message } }
}

/// What an envelope holds.
#[derive(Debug, Clone, PartialEq)]
pub enum MessageContent {
    Request(Request),
    Response(Response),
}

/// The view of a [`MessageContent`].
pub enum MessageContentView {
    Request(RequestView),
    Response(ResponseView),
}

impl View for MessageContent {
    type V = MessageContentView;

    open spec fn view(&self) -> MessageContentView {
        match *self {
            MessageContent::Request(req) => MessageContentView::Request(req@),
            MessageContent::Response(resp) => MessageContentView::Response(resp@),
        }
    }
}

/// Protocol envelope: a version and a request or a response.
#[derive(Debug, Clone, PartialEq)]
pub struct Message {
    pub protocol_version: String,
    pub content: MessageContent,
}

/// The view of a [`Message`].
pub struct MessageView {
    pub protocol_version: Seq<char>,
    pub content: MessageContentView,
}

impl View for Message {
    type V = MessageView;

    open spec fn view(&self) -> MessageView {
        MessageView { protocol_version: self.protocol_version@, content: self.content@ }
    }
}

/// The envelope that carries `req` under the current protocol version.
pub open spec fn request_message(req: RequestView) -> MessageView {
    MessageView {
        protocol_version: PROTOCOL_VERSION@,
        content: MessageContentView::Request(req),
    }
}

/// The envelope that carries `resp` under the current protocol version.
pub open spec fn response_message(resp: ResponseView) -> MessageView {
    MessageView {
        protocol_version: PROTOCOL_VERSION@,
        content: MessageContentView::Response(resp),
    }
}

impl Message {
    /// The protocol version every envelope carries.
    pub const PROTOCOL_VERSION: &'static str = PROTOCOL_VERSION;

    /// Wraps a request in an envelope of the current protocol version.
    pub fn request(req: Request) -> (r: Self)
        ensures
            r@ == request_message(req@),
            r.content == MessageContent::Request(req),
    {
        Message {
            protocol_version: PROTOCOL_VERSION.to_string(),
            content: MessageContent::Request(req),
        }
    }

    /// Wraps a response in an envelope of the current protocol version.
    pub fn response(resp: Response) -> (r: Self)
        ensures
            r@ == response_message(resp@),
            r.content == MessageContent::Response(resp),
    {
        Message {
            protocol_version: PROTOCOL_VERSION.to_string(),
            content: MessageContent::Response(resp),
        }
    }

    /// The envelope of a successful response that carries `data`.
    pub fn success(data: ResponseData) -> (r: Self)
        ensures
            r@ == response_message(ResponseView::Success { result: data@ }),
            r.content == MessageContent::Response(Response::Success { result: data }),
    {
        Message::response(Response::Success { result: data })
    }

    /// The envelope of an error response with the given code and message.
    pub fn error(code: ErrorCode, message: String) -> (r: Self)
        ensures
            r@ == response_message(error_response(code, message@)),
    {
        Message::response(Response::Error { error: ErrorInfo { code, message } })
    }
}

} // verus!
