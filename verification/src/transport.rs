//! The decisions of the transports and of the server's life cycle.
//!
//! Reading, writing, binding and waiting are done by whoever drives a
//! transport. What to do with each thing that happened is decided here:
//! each function takes what happened and returns the next step.

use crate::server::{Config, TransportKind};
use crate::text::{decimal, decimal_text, join, lemma_decimal_reads_back, trimmed_of};
use vstd::prelude::*;

verus! {

/// What to do after an attempt to read one line.
#[derive(Debug, Clone, PartialEq, Eq)]
pub enum ReadStep {
    /// End the loop: the input is at its end, or reading failed.
    Stop,
    /// Read the next line: this one was blank.
    Skip,
    /// Hand the text to the dispatcher and write its answer.
    Dispatch(String),
}

/// The view of a [`ReadStep`].
pub enum ReadStepView {
    Stop,
    Skip,
    Dispatch(Seq<char>),
}

impl View for ReadStep {
    type V = ReadStepView;

    open spec fn view(&self) -> ReadStepView {
        match *self {
            ReadStep::Stop => ReadStepView::Stop,
            ReadStep::Skip => ReadStepView::Skip,
            ReadStep::Dispatch(text) => ReadStepView::Dispatch(text@),
        }
    }
}

/// The step for a line that was read and trimmed: a blank line is skipped,
/// any other is dispatched.
pub open spec fn line_step(trimmed: Seq<char>) -> ReadStepView {
    if trimmed.len() == 0 {
        ReadStepView::Skip
    } else {
        ReadStepView::Dispatch(trimmed)
    }
}

/// The step after a read that reported `count` bytes, or failed where
/// `count` is `None`, and left `line` in the buffer: a failed read and a
/// read of no bytes end the loop, a line that is blank once trimmed is
/// skipped, and any other line is dispatched trimmed.
pub open spec fn read_step(count: Option<usize>, line: Seq<char>) -> ReadStepView {
    match count {
        None => ReadStepView::Stop,
        Some(n) => if n == 0 {
            ReadStepView::Stop
        } else {
            line_step(trimmed_of(line))
        },
    }
}

/// Decides what to do with a line that was read and trimmed.
pub fn on_line(trimmed: &str) -> (r: ReadStep)
    ensures
        r@ == line_step(trimmed@),
{
    if trimmed.is_empty() {
        ReadStep::Skip
    } else {
        ReadStep::Dispatch(trimmed.to_string())
    }
}

/// Decides what follows an attempt to read one line.
pub fn on_read(count: Option<usize>, line: &str) -> (r: ReadStep)
    ensures
        r@ == read_step(count, line@),
{
    match count {
        None => ReadStep::Stop,
        Some(n) => {
            if n == 0 {
                ReadStep::Stop
            } else {
                on_line(line.trim())
            }
        },
    }
}

/// What happened while a loop waited for its input.
#[derive(Debug, Clone, Copy, PartialEq, Eq)]
pub enum InputEvent<'a> {
    /// The shutdown signal fired.
    Shutdown,
    /// A read ended: it reported `count` bytes, or failed where `count` is
    /// `None`, and left `line` in the buffer.
    Read { count: Option<usize>, line: &'a str },
}

/// Decides what a loop does after an event: the shutdown signal ends it,
/// and a read is judged by [`on_read`].
pub fn on_input(event: InputEvent<'_>) -> (r: ReadStep)
    ensures
        r@ == match event {
            InputEvent::Shutdown => ReadStepView::Stop,
            InputEvent::Read { count, line } => read_step(count, line@),
        },
{
    match event {
        InputEvent::Shutdown => ReadStep::Stop,
        InputEvent::Read { count, line } => on_read(count, line),
    }
}

/// The line to write for an encoded response: the text and a line feed.
/// A response that could not be encoded is not written.
pub fn frame(encoded: Option<String>) -> (r: Option<String>)
    ensures
        match encoded {
            Some(text) => r is Some && r->0@ == text@ + "\n"@,
            None => r is None,
        },
{
    match encoded {
        Some(text) => Some(text.concat("\n")),
        None => None,
    }
}

/// What happened while a listener waited.
#[derive(Debug, Clone, Copy, PartialEq, Eq, Structural)]
pub enum AcceptEvent {
    /// The shutdown signal fired.
    Shutdown,
    /// A client connected.
    Accepted,
    /// Accepting a client failed.
    Failed,
}

/// What a listener does next.
#[derive(Debug, Clone, Copy, PartialEq, Eq, Structural)]
pub enum AcceptStep {
    /// Stop accepting and remove what the listener left on disk.
    CleanUpAndStop,
    /// Serve the client on a task of its own, and go on accepting.
    Serve,
    /// Go on accepting.
    Continue,
}

/// Decides what a listener does after an event: a failed accept ends
/// nothing, only the shutdown signal does.
pub fn on_accept(event: AcceptEvent) -> (r: AcceptStep)
    ensures
        r == match event {
            AcceptEvent::Shutdown => AcceptStep::CleanUpAndStop,
            AcceptEvent::Accepted => AcceptStep::Serve,
            AcceptEvent::Failed => AcceptStep::Continue,
        },
{
    match event {
        AcceptEvent::Shutdown => AcceptStep::CleanUpAndStop,
        AcceptEvent::Accepted => AcceptStep::Serve,
        AcceptEvent::Failed => AcceptStep::Continue,
    }
}

/// The path of the socket of the process with the given identifier.
pub open spec fn socket_path_of(pid: u32) -> Seq<char> {
    "/tmp/accessibility_mcp_"@ + decimal(pid as nat) + ".sock"@
}

/// The default socket path: it is derived from the process identifier.
pub fn socket_path(pid: u32) -> (r: String)
    ensures
        r@ == socket_path_of(pid),
{
    let number = decimal_text(pid as u64);
    join("/tmp/accessibility_mcp_", number.as_str()).concat(".sock")
}

/// Different processes have different socket paths.
pub proof fn lemma_socket_paths_differ(a: u32, b: u32)
    requires
        socket_path_of(a) == socket_path_of(b),
    ensures
        a == b,
{
    let prefix = "/tmp/accessibility_mcp_"@;
    let suffix = ".sock"@;
    let left = decimal(a as nat);
    let right = decimal(b as nat);
    let whole = prefix + left + suffix;
    let other = prefix + right + suffix;
    assert(left.len() == right.len()) by {
        assert(whole.len() == prefix.len() + left.len() + suffix.len());
    }
    assert(whole.subrange(prefix.len() as int, (prefix.len() + left.len()) as int) =~= left);
    assert(other.subrange(prefix.len() as int, (prefix.len() + right.len()) as int) =~= right);
    lemma_decimal_reads_back(a as nat);
    lemma_decimal_reads_back(b as nat);
}

/// Where a server listens.
#[derive(Debug, Clone, PartialEq, Eq)]
pub enum Endpoint {
    /// Standard input and output.
    Stdio,
    /// A Unix domain socket at the given path.
    UnixSocket { path: String },
    /// A network port: the one asked for, or one the system assigns.
    Network { port: Option<u16> },
}

/// The view of an [`Endpoint`].
pub enum EndpointView {
    Stdio,
    UnixSocket { path: Seq<char> },
    Network { port: Option<u16> },
}

impl View for Endpoint {
    type V = EndpointView;

    open spec fn view(&self) -> EndpointView {
        match *self {
            Endpoint::Stdio => EndpointView::Stdio,
            Endpoint::UnixSocket { path } => EndpointView::UnixSocket { path: path@ },
            Endpoint::Network { port } => EndpointView::Network { port },
        }
    }
}

/// The endpoint a configuration selects, for the process with the given
/// identifier.
pub fn endpoint_for(config: &Config, pid: u32) -> (r: Endpoint)
    ensures
        r@ == match config.transport {
            TransportKind::Stdio => EndpointView::Stdio,
            TransportKind::UnixSocket => EndpointView::UnixSocket { path: socket_path_of(pid) },
            TransportKind::Tcp => EndpointView::Network { port: config.port },
        },
{
    match config.transport {
        TransportKind::Stdio => Endpoint::Stdio,
        TransportKind::UnixSocket => Endpoint::UnixSocket { path: socket_path(pid) },
        TransportKind::Tcp => Endpoint::Network { port: config.port },
    }
}

/// The one-line banner that announces where the server listens; for a
/// network endpoint, `bound_port` is the port that was bound.
pub open spec fn banner_of(endpoint: EndpointView, bound_port: u16) -> Seq<char> {
    match endpoint {
        EndpointView::Stdio => "[MCP] listening on stdio"@,
        EndpointView::UnixSocket { path } => "[MCP] listening on unix socket: "@ + path,
        EndpointView::Network { .. } => "[MCP] listening on http://127.0.0.1:"@ + decimal(
            bound_port as nat,
        ),
    }
}

/// Writes the banner for an endpoint.
pub fn banner(endpoint: &Endpoint, bound_port: u16) -> (r: String)
    ensures
        r@ == banner_of(endpoint@, bound_port),
{
    match endpoint {
        Endpoint::Stdio => "[MCP] listening on stdio".to_string(),
        Endpoint::UnixSocket { path } => join("[MCP] listening on unix socket: ", path.as_str()),
        Endpoint::Network { .. } => join(
            "[MCP] listening on http://127.0.0.1:",
            decimal_text(bound_port as u64).as_str(),
        ),
    }
}

/// How far past the requested port the server looks for a free one.
pub const PROBE_RANGE: u16 = 100;

/// The port to try after `tried` turned out to be occupied, where
/// `requested` is the port that was asked for: the next port up, as long as
/// it exists and is at most [`PROBE_RANGE`] past the requested one.
pub open spec fn port_after(requested: u16, tried: u16) -> Option<u16> {
    if requested <= tried && tried - requested < PROBE_RANGE && tried < u16::MAX {
        Some((tried + 1) as u16)
    } else {
        None
    }
}

/// What to do after a port turned out to be occupied.
#[derive(Debug, Clone, Copy, PartialEq, Eq, Structural)]
pub enum ProbeStep {
    /// Try to bind this port.
    Try(u16),
    /// Every port of the range is occupied: go back to the requested port,
    /// and let its bind decide.
    FallBack(u16),
}

/// Decides which port to bind after `tried` turned out to be occupied.
pub fn after_occupied(requested: u16, tried: u16) -> (r: ProbeStep)
    ensures
        r == match port_after(requested, tried) {
            Some(port) => ProbeStep::Try(port),
            None => ProbeStep::FallBack(requested),
        },
{
    if requested <= tried && tried - requested < PROBE_RANGE && tried < u16::MAX {
        ProbeStep::Try(tried + 1)
    } else {
        ProbeStep::FallBack(requested)
    }
}

/// The port that is tried at the given step of a probe, where every port
/// before it was occupied; `None` once the range is used up.
pub open spec fn probe_at(requested: u16, step: nat) -> Option<u16>
    decreases step,
{
    if step == 0 {
        Some(requested)
    } else {
        match probe_at(requested, (step - 1) as nat) {
            Some(tried) => port_after(requested, tried),
            None => None,
        }
    }
}

/// A probe tries the requested port, then the ports above it one by one,
/// and never goes further than [`PROBE_RANGE`] past the requested port nor
/// past the last port there is.
pub proof fn lemma_probe_order(requested: u16, step: nat)
    ensures
        probe_at(requested, step) == if step <= PROBE_RANGE && requested + step <= u16::MAX {
            Some((requested + step) as u16)
        } else {
            None::<u16>
        },
    decreases step,
{
    if step > 0 {
        lemma_probe_order(requested, (step - 1) as nat);
    }
}

/// The states of a server's life.
#[derive(Debug, Clone, Copy, PartialEq, Eq, Structural)]
pub enum ServerState {
    Stopped,
    Starting,
    Listening,
    ShuttingDown,
}

/// What can happen to a server.
#[derive(Debug, Clone, Copy, PartialEq, Eq, Structural)]
pub enum ServerEvent {
    /// The server is asked to start.
    Start,
    /// The transport resource was acquired.
    Bound,
    /// The transport resource could not be acquired.
    BindFailed,
    /// The shutdown signal fired, or the handle was dropped.
    ShutdownRequested,
    /// The transport's cleanup is done.
    CleanedUp,
}

/// What the driver of a server has to do after an event.
#[derive(Debug, Clone, Copy, PartialEq, Eq, Structural)]
pub enum ServerAction {
    /// Nothing: the event does not concern the state the server is in.
    Nothing,
    /// Acquire the transport resource.
    Bind,
    /// Announce the endpoint and start serving.
    Serve,
    /// Give up the start: the failure is fatal.
    Abort,
    /// Stop taking input and clean up after the transport.
    CleanUp,
    /// Release what is left: the server has stopped.
    Release,
}

/// The state and the action that follow an event. An event that does not
/// belong to the state changes nothing.
pub open spec fn transition(state: ServerState, event: ServerEvent) -> (ServerState, ServerAction) {
    match (state, event) {
        (ServerState::Stopped, ServerEvent::Start) => (ServerState::Starting, ServerAction::Bind),
        (ServerState::Starting, ServerEvent::Bound) => (
            ServerState::Listening,
            ServerAction::Serve,
        ),
        (ServerState::Starting, ServerEvent::BindFailed) => (
            ServerState::Stopped,
            ServerAction::Abort,
        ),
        (ServerState::Starting, ServerEvent::ShutdownRequested) => (
            ServerState::ShuttingDown,
            ServerAction::CleanUp,
        ),
        (ServerState::Listening, ServerEvent::ShutdownRequested) => (
            ServerState::ShuttingDown,
            ServerAction::CleanUp,
        ),
        (ServerState::ShuttingDown, ServerEvent::CleanedUp) => (
            ServerState::Stopped,
            ServerAction::Release,
        ),
        _ => (state, ServerAction::Nothing),
    }
}

/// Takes a server from one state to the next.
pub fn advance(state: ServerState, event: ServerEvent) -> (r: (ServerState, ServerAction))
    ensures
        r == transition(state, event),
{
    match state {
        ServerState::Stopped => match event {
            ServerEvent::Start => (ServerState::Starting, ServerAction::Bind),
            _ => (state, ServerAction::Nothing),
        },
        ServerState::Starting => match event {
            ServerEvent::Bound => (ServerState::Listening, ServerAction::Serve),
            ServerEvent::BindFailed => (ServerState::Stopped, ServerAction::Abort),
            ServerEvent::ShutdownRequested => (ServerState::ShuttingDown, ServerAction::CleanUp),
            _ => (state, ServerAction::Nothing),
        },
        ServerState::Listening => match event {
            ServerEvent::ShutdownRequested => (ServerState::ShuttingDown, ServerAction::CleanUp),
            _ => (state, ServerAction::Nothing),
        },
        ServerState::ShuttingDown => match event {
            ServerEvent::CleanedUp => (ServerState::Stopped, ServerAction::Release),
            _ => (state, ServerAction::Nothing),
        },
    }
}

/// The order of the states along a server's life, for telling forward from
/// backward.
pub open spec fn stage(state: ServerState) -> int {
    match state {
        ServerState::Stopped => 0,
        ServerState::Starting => 1,
        ServerState::Listening => 2,
        ServerState::ShuttingDown => 3,
    }
}

/// A server's life runs one way: an event leaves the state as it is, moves
/// it one stage or, from `Starting`, past `Listening`; or it ends the life
/// in `Stopped`. A server takes input in no state but `Listening`, which is
/// entered only from `Starting` by a successful bind, and a shutdown
/// request is never followed by serving.
pub proof fn lemma_life_cycle(state: ServerState, event: ServerEvent)
    ensures
        ({
            let (next, action) = transition(state, event);
            &&& next == state || next == ServerState::Stopped || stage(next) > stage(state)
            &&& next == ServerState::Listening && state != ServerState::Listening ==> state
                == ServerState::Starting && event == ServerEvent::Bound
            &&& event == ServerEvent::ShutdownRequested ==> next != ServerState::Listening
            &&& action == ServerAction::Nothing <==> next == state
        }),
{
}

} // verus!
