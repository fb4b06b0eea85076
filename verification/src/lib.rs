//! Accessibility tree protocol: the message model, the request dispatcher,
//! the bounded name search over a provider's tree, and the decisions of the
//! transports and of a platform backend, each with a machine-checked
//! contract.
//!
//! Nothing here reads, writes or waits. A server built on this crate
//! decodes what it reads, hands it to [`server::handle_request`] together
//! with its [`provider::AccessibilityProvider`], and encodes what comes
//! back.

pub mod platform;
pub mod protocol;
pub mod provider;
pub mod search;
pub mod server;
pub mod text;
pub mod tools;
pub mod transport;

pub use protocol::{Action, Node, NodeId, Rect};
pub use provider::AccessibilityProvider;
pub use server::{Config, LogLevel, TransportKind};
