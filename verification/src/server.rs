//! The request dispatcher: from a decoded envelope to the response
//! envelope, and the server's configuration.
//!
//! Whatever a request leads to, the dispatcher answers with an envelope:
//! every failure becomes an error response with a code and a message.

use crate::protocol::{
    error_response, node_views, request_message, response_message, text_opt, Action, ActionView, Capabilities,
    ErrorCode, ErrorInfo,
    Message, MessageContent, MessageContentView, MessageView, Node, NodeId, NodeView, Request,
    RequestView, Response, ResponseData, ResponseDataView, ResponseView, ServerInfo,
    ServerInfoView, ToolsCapability, PROTOCOL_VERSION,
};
use crate::provider::{action_answer, node_answer, AccessibilityProvider, ProviderError};
use crate::search::{
    distinct_ids, find_by_name, is_search_outcome, lemma_outcome, name_matches,
    SearchOutcomeView, MAX_NODES,
};
use crate::text::{join, lowercase_of, starts_with};
use crate::tools::{tool_catalog, tools_list};
use vstd::prelude::*;

verus! {

/// The name the server gives itself.
pub const SERVER_NAME: &'static str = "accessibility_mcp";

/// The version the server gives itself.
pub const SERVER_VERSION: &'static str = "0.1.0";

/// The prefix every protocol version the server can talk to begins with.
pub const MAJOR_VERSION_PREFIX: &'static str = "1.";

/// The response to `QueryTree` for what the provider said of the root: the
/// root alone as the tree, or an internal error.
pub open spec fn query_tree_reply(answer: Result<NodeView, Seq<char>>) -> ResponseView {
    match answer {
        Ok(root) => ResponseView::Success { result: ResponseDataView::Tree { nodes: seq![root] } },
        Err(e) => error_response(ErrorCode::Internal, "Failed to get root: "@ + e),
    }
}

/// The response to `GetNode` for what the provider said of the node: the
/// node, or a not-found error.
pub open spec fn get_node_reply(answer: Result<NodeView, Seq<char>>) -> ResponseView {
    match answer {
        Ok(node) => ResponseView::Success { result: ResponseDataView::Node { node } },
        Err(e) => error_response(ErrorCode::NotFound, "Node not found: "@ + e),
    }
}

/// The response to `PerformAction` for what the provider said: success, or
/// an invalid-action error.
pub open spec fn perform_action_reply(answer: Result<(), Seq<char>>) -> ResponseView {
    match answer {
        Ok(()) => ResponseView::Success {
            result: ResponseDataView::ActionResult { success: true },
        },
        Err(e) => error_response(ErrorCode::InvalidAction, "Failed to perform action: "@ + e),
    }
}

/// The response to `FindByName` when the provider has no root.
pub open spec fn no_root_reply(e: Seq<char>) -> ResponseView {
    error_response(ErrorCode::Internal, "Failed to get root: "@ + e)
}

/// The response to `FindByName` that carries the nodes found.
pub open spec fn found_reply(nodes: Seq<NodeView>) -> ResponseView {
    ResponseView::Success { result: ResponseDataView::Nodes { nodes } }
}

/// What the server says of itself in the answer to `Initialize`.
pub open spec fn server_identity() -> ResponseView {
    ResponseView::Success {
        result: ResponseDataView::Initialize {
            protocol_version: PROTOCOL_VERSION@,
            capabilities: Capabilities { tools: Some(ToolsCapability { list_changed: false }) },
            server_info: ServerInfoView { name: SERVER_NAME@, version: SERVER_VERSION@ },
        },
    }
}

/// The response to `Initialize`: a declared version that does not begin
/// with the major-version prefix is refused; otherwise the server
/// identifies itself.
pub open spec fn initialize_reply(declared: Option<Seq<char>>) -> ResponseView {
    match declared {
        Some(version) => if MAJOR_VERSION_PREFIX@.is_prefix_of(version) {
            server_identity()
        } else {
            error_response(ErrorCode::Internal, "Unsupported protocol version: "@ + version)
        },
        None => server_identity(),
    }
}

/// The response to `ToolsList`.
pub open spec fn tools_reply() -> ResponseView {
    ResponseView::Success { result: ResponseDataView::Tools { tools: tool_catalog() } }
}

/// `resp` is a response to `QueryTree`: what follows from an answer the
/// provider may give when asked for the root.
pub open spec fn answers_query_tree<P: AccessibilityProvider>(
    provider: &P,
    resp: ResponseView,
) -> bool {
    exists|a: Result<NodeView, Seq<char>>| #[trigger]
        provider.may_answer_root(a) && resp == query_tree_reply(a)
}

/// `resp` is a response to `GetNode` for `node_id`: what follows from an
/// answer the provider may give when asked for that node.
pub open spec fn answers_get_node<P: AccessibilityProvider>(
    provider: &P,
    node_id: Seq<char>,
    resp: ResponseView,
) -> bool {
    exists|a: Result<NodeView, Seq<char>>| #[trigger]
        provider.may_answer_node(node_id, a) && resp == get_node_reply(a)
}

/// `resp` is a response to `PerformAction`: what follows from an answer the
/// provider may give when asked to perform that action on that node.
pub open spec fn answers_perform_action<P: AccessibilityProvider>(
    provider: &P,
    node_id: Seq<char>,
    action: ActionView,
    resp: ResponseView,
) -> bool {
    exists|a: Result<(), Seq<char>>| #[trigger]
        provider.may_answer_action(node_id, action, a) && resp == perform_action_reply(a)
}

/// `resp` is a response to `FindByName` for `name`: the provider had no
/// root, or the response carries the outcome of a search from a root it
/// gave.
pub open spec fn answers_find_by_name<P: AccessibilityProvider>(
    provider: &P,
    name: Seq<char>,
    resp: ResponseView,
) -> bool {
    ||| exists|e: Seq<char>| #[trigger]
        provider.may_answer_root(Err(e)) && resp == no_root_reply(e)
    ||| exists|root: NodeView, nodes: Seq<NodeView>, truncated: bool|
        provider.may_answer_root(Ok(root)) && #[trigger] is_search_outcome(
            provider,
            root,
            lowercase_of(name),
            SearchOutcomeView { matches: nodes, truncated },
        ) && resp == found_reply(nodes)
}

/// `resp` is a response the dispatcher can give to `req`, for some answers
/// that `provider` may give to what the request makes the dispatcher ask.
pub open spec fn answers_request<P: AccessibilityProvider>(
    provider: &P,
    req: RequestView,
    resp: ResponseView,
) -> bool {
    match req {
        RequestView::QueryTree { .. } => answers_query_tree(provider, resp),
        RequestView::GetNode { node_id } => answers_get_node(provider, node_id, resp),
        RequestView::PerformAction { node_id, action } => answers_perform_action(
            provider,
            node_id,
            action,
            resp,
        ),
        RequestView::FindByName { name } => answers_find_by_name(provider, name, resp),
        RequestView::Initialize { protocol_version, .. } => resp == initialize_reply(
            protocol_version,
        ),
        RequestView::ToolsList => resp == tools_reply(),
    }
}

/// The view of what the decoder made of an incoming text.
pub open spec fn decoded_view(decoded: Result<Message, String>) -> Result<MessageView, Seq<char>> {
    match decoded {
        Ok(message) => Ok(message@),
        Err(e) => Err(e@),
    }
}

/// The envelope that refuses a request before it reaches a handler, if the
/// decoded input is refused: an undecodable text, an envelope of another
/// protocol version, or an envelope that holds a response.
pub open spec fn refusal(decoded: Result<MessageView, Seq<char>>) -> Option<MessageView> {
    match decoded {
        Err(e) => Some(
            response_message(error_response(ErrorCode::Internal, "Invalid JSON: "@ + e)),
        ),
        Ok(message) => if message.protocol_version != PROTOCOL_VERSION@ {
            Some(
                response_message(
                    error_response(
                        ErrorCode::Internal,
                        "Unsupported protocol version: "@ + message.protocol_version,
                    ),
                ),
            )
        } else {
            match message.content {
                MessageContentView::Response(_) => Some(
                    response_message(
                        error_response(ErrorCode::Internal, "Expected request, got response"@),
                    ),
                ),
                MessageContentView::Request(_) => None,
            }
        },
    }
}

/// `reply` is an envelope the dispatcher can give for `decoded`: the
/// refusal where the input is refused, else a response to the request under
/// the current protocol version.
pub open spec fn answers<P: AccessibilityProvider>(
    provider: &P,
    decoded: Result<MessageView, Seq<char>>,
    reply: MessageView,
) -> bool {
    match refusal(decoded) {
        Some(refused) => reply == refused,
        None => exists|resp: ResponseView| #[trigger]
            answers_request(provider, decoded->Ok_0.content->Request_0, resp) && reply
                == response_message(resp),
    }
}

/// An envelope of another protocol version is answered with an internal
/// error that names the version, whatever it holds and whatever the
/// provider would say.
pub proof fn lemma_other_version_is_refused<P: AccessibilityProvider>(
    provider: &P,
    message: MessageView,
    reply: MessageView,
)
    requires
        message.protocol_version != PROTOCOL_VERSION@,
        answers(provider, Ok(message), reply),
    ensures
        reply == response_message(
            error_response(
                ErrorCode::Internal,
                "Unsupported protocol version: "@ + message.protocol_version,
            ),
        ),
        reply.content matches MessageContentView::Response(ResponseView::Error { error })
            && error.code == ErrorCode::Internal,
{
}

/// A request in an envelope of the current protocol version is never
/// refused: it reaches its handler.
pub proof fn lemma_current_version_is_routed(req: RequestView)
    ensures
        refusal(Ok(request_message(req))) is None,
{
}

/// Every envelope the dispatcher gives carries the current protocol
/// version and holds a response.
pub proof fn lemma_reply_is_a_response<P: AccessibilityProvider>(
    provider: &P,
    decoded: Result<MessageView, Seq<char>>,
    reply: MessageView,
)
    requires
        answers(provider, decoded, reply),
    ensures
        reply.protocol_version == PROTOCOL_VERSION@,
        reply.content is Response,
{
}

/// A search that reaches its budget is no error: the response to
/// `FindByName` is an error only where the provider had no root, and else
/// carries at most [`MAX_NODES`] nodes, none twice, each with a name that
/// matches.
pub proof fn lemma_find_by_name_reply<P: AccessibilityProvider>(
    provider: &P,
    name: Seq<char>,
    resp: ResponseView,
)
    requires
        answers_find_by_name(provider, name, resp),
    ensures
        resp is Error ==> exists|e: Seq<char>| #[trigger]
            provider.may_answer_root(Err(e)) && resp == no_root_reply(e),
        resp matches ResponseView::Success { result } ==> {
            &&& result matches ResponseDataView::Nodes { nodes }
            &&& nodes.len() <= MAX_NODES
            &&& distinct_ids(nodes)
            &&& forall|i: int|
                0 <= i < nodes.len() ==> name_matches((#[trigger] nodes[i]).name, name)
        },
{
    if resp is Success {
        let (root, nodes, truncated) = choose|
            root: NodeView,
            nodes: Seq<NodeView>,
            truncated: bool,
        |
            provider.may_answer_root(Ok(root)) && #[trigger] is_search_outcome(
                provider,
                root,
                lowercase_of(name),
                SearchOutcomeView { matches: nodes, truncated },
            ) && resp == found_reply(nodes);
        lemma_outcome(
            provider,
            root,
            lowercase_of(name),
            SearchOutcomeView { matches: nodes, truncated },
        );
    }
}

/// An error response with the given code, whose message is `prefix`
/// followed by `detail`.
fn failure(code: ErrorCode, prefix: &str, detail: &str) -> (r: Response)
    ensures
        r@ == error_response(code, prefix@ + detail@),
{
    Response::Error { error: ErrorInfo { code, message: join(prefix, detail) } }
}

/// The response to `QueryTree`, given what the provider said of the root.
pub fn query_tree_response(answer: Result<Node, ProviderError>) -> (r: Response)
    ensures
        r@ == query_tree_reply(node_answer(answer)),
{
    match answer {
        Ok(root) => {
            let mut nodes: Vec<Node> = Vec::new();
            nodes.push(root);
            assert(node_views(nodes@) =~= seq![root@]);
            Response::Success { result: ResponseData::Tree { nodes } }
        },
        Err(e) => failure(ErrorCode::Internal, "Failed to get root: ", e.message.as_str()),
    }
}

/// The response to `GetNode`, given what the provider said of the node.
pub fn get_node_response(answer: Result<Node, ProviderError>) -> (r: Response)
    ensures
        r@ == get_node_reply(node_answer(answer)),
{
    match answer {
        Ok(node) => Response::Success { result: ResponseData::Node { node } },
        Err(e) => failure(ErrorCode::NotFound, "Node not found: ", e.message.as_str()),
    }
}

/// The response to `PerformAction`, given what the provider said.
pub fn perform_action_response(answer: Result<(), ProviderError>) -> (r: Response)
    ensures
        r@ == perform_action_reply(action_answer(answer)),
{
    match answer {
        Ok(()) => Response::Success { result: ResponseData::ActionResult { success: true } },
        Err(e) => failure(
            ErrorCode::InvalidAction,
            "Failed to perform action: ",
            e.message.as_str(),
        ),
    }
}

/// Answers `QueryTree`: asks the provider for the root once. The limits are
/// accepted and not enforced: the tree returned is the root alone.
pub fn handle_query_tree<P: AccessibilityProvider>(
    provider: &P,
    max_depth: Option<usize>,
    max_nodes: Option<usize>,
) -> (r: Response)
    ensures
        answers_query_tree(provider, r@),
        answers_request(provider, RequestView::QueryTree { max_depth, max_nodes }, r@),
{
    query_tree_response(provider.get_root())
}

/// Answers `GetNode`: asks the provider for the node once.
pub fn handle_get_node<P: AccessibilityProvider>(provider: &P, node_id: &NodeId) -> (r: Response)
    ensures
        answers_get_node(provider, node_id@, r@),
        answers_request(provider, RequestView::GetNode { node_id: node_id@ }, r@),
{
    get_node_response(provider.get_node(node_id))
}

/// Answers `PerformAction`: hands the identifier and the action to the
/// provider once, without judging whether the action suits the node.
pub fn handle_perform_action<P: AccessibilityProvider>(
    provider: &P,
    node_id: &NodeId,
    action: &Action,
) -> (r: Response)
    ensures
        answers_perform_action(provider, node_id@, action@, r@),
        answers_request(
            provider,
            RequestView::PerformAction { node_id: node_id@, action: action@ },
            r@,
        ),
{
    perform_action_response(provider.perform_action(node_id, action))
}

/// Answers `FindByName`: asks the provider for the root and searches the
/// tree below it. Reaching the search budget is no error: the response
/// carries what was found.
pub fn handle_find_by_name<P: AccessibilityProvider>(provider: &P, name: &str) -> (r: Response)
    ensures
        answers_find_by_name(provider, name@, r@),
        answers_request(provider, RequestView::FindByName { name: name@ }, r@),
{
    match provider.get_root() {
        Ok(root) => {
            let outcome = find_by_name(provider, root, name);
            assert(is_search_outcome(
                provider,
                root@,
                lowercase_of(name@),
                SearchOutcomeView { matches: outcome@.matches, truncated: outcome@.truncated },
            ));
            Response::Success { result: ResponseData::Nodes { nodes: outcome.matches } }
        },
        Err(e) => failure(ErrorCode::Internal, "Failed to get root: ", e.message.as_str()),
    }
}

/// Answers `Initialize`. A declared version is checked against the
/// major-version prefix only, which is looser than the check every
/// envelope has passed before a request gets here.
pub fn handle_initialize(
    protocol_version: Option<String>,
    capabilities: Option<serde_json::Value>,
) -> (r: Response)
    ensures
        r@ == initialize_reply(text_opt(protocol_version)),
{
    if let Some(version) = protocol_version {
        if !starts_with(version.as_str(), MAJOR_VERSION_PREFIX) {
            return failure(
                ErrorCode::Internal,
                "Unsupported protocol version: ",
                version.as_str(),
            );
        }
    }
    Response::Success {
        result: ResponseData::Initialize {
            protocol_version: PROTOCOL_VERSION.to_string(),
            capabilities: Capabilities { tools: Some(ToolsCapability { list_changed: false }) },
            server_info: ServerInfo {
                name: SERVER_NAME.to_string(),
                version: SERVER_VERSION.to_string(),
            },
        },
    }
}

/// Answers `ToolsList` with the catalog.
pub fn handle_tools_list() -> (r: Response)
    ensures
        r@ == tools_reply(),
{
    Response::Success { result: ResponseData::Tools { tools: tools_list() } }
}

/// Answers one incoming text, given what the decoder made of it: the
/// envelope, or the text of the decoder's complaint.
///
/// An undecodable text, an envelope of another protocol version and an
/// envelope that holds a response are refused with an internal error, in
/// that order, before any handler runs. A request is routed to its handler,
/// and the handler's response is put in an envelope of the current
/// protocol version.
pub fn handle_request<P: AccessibilityProvider>(
    provider: &P,
    decoded: Result<Message, String>,
) -> (reply: Message)
    ensures
        answers(provider, decoded_view(decoded), reply@),
        reply@.protocol_version == PROTOCOL_VERSION@,
        reply@.content is Response,
        refusal(decoded_view(decoded)) is Some ==> reply@ == refusal(decoded_view(decoded))->0,
{
    let message = match decoded {
        Ok(message) => message,
        Err(e) => {
            return Message::error(ErrorCode::Internal, join("Invalid JSON: ", e.as_str()));
        },
    };
    if message.protocol_version != PROTOCOL_VERSION.to_string() {
        return Message::error(
            ErrorCode::Internal,
            join("Unsupported protocol version: ", message.protocol_version.as_str()),
        );
    }
    let request = match message.content {
        MessageContent::Request(request) => request,
        MessageContent::Response(_) => {
            return Message::error(
                ErrorCode::Internal,
                "Expected request, got response".to_string(),
            );
        },
    };
    let ghost req = request@;
    let response = match request {
        Request::QueryTree { max_depth, max_nodes } => handle_query_tree(
            provider,
            max_depth,
            max_nodes,
        ),
        Request::GetNode { node_id } => handle_get_node(provider, &node_id),
        Request::PerformAction { node_id, action } => handle_perform_action(
            provider,
            &node_id,
            &action,
        ),
        Request::FindByName { name } => handle_find_by_name(provider, name.as_str()),
        Request::Initialize { protocol_version, capabilities } => handle_initialize(
            protocol_version,
            capabilities,
        ),
        Request::ToolsList => handle_tools_list(),
    };
    assert(answers_request(provider, req, response@));
    Message::response(response)
}

/// Transport mechanism for the server.
#[derive(Debug, Clone, Copy, PartialEq, Eq, Structural)]
pub enum TransportKind {
    /// Standard input/output (default)
    Stdio,
    /// Unix domain socket
    UnixSocket,
    /// TCP socket
    Tcp,
}

impl Default for TransportKind {
    fn default() -> (r: Self)
        ensures
            r == TransportKind::Stdio,
    {
        TransportKind::Stdio
    }
}

/// Logging level.
#[derive(Debug, Clone, Copy, PartialEq, Eq, Structural)]
pub enum LogLevel {
    Error,
    Warn,
    Info,
    Debug,
    Trace,
}

impl Default for LogLevel {
    fn default() -> (r: Self)
        ensures
            r == LogLevel::Info,
    {
        LogLevel::Info
    }
}

/// Configuration for the server.
#[derive(Debug, Clone, PartialEq, Eq)]
pub struct Config {
    pub transport: TransportKind,
    pub port: Option<u16>,
    pub normalize: bool,
    pub log_level: LogLevel,
}

impl Default for Config {
    fn default() -> (r: Self)
        ensures
            r == (Config {
                transport: TransportKind::Stdio,
                port: None,
                normalize: false,
                log_level: LogLevel::Info,
            }),
    {
        Config {
            transport: TransportKind::default(),
            port: None,
            normalize: false,
            log_level: LogLevel::default(),
        }
    }
}

} // verus!
