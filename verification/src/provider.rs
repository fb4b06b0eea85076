//! The contract between the dispatcher and a platform accessibility
//! backend.

use crate::protocol::{Action, ActionView, Node, NodeId, NodeView};
use vstd::prelude::*;

verus! {

/// Why a provider could not answer: a human-readable message.
#[derive(Debug, Clone, PartialEq, Eq)]
pub struct ProviderError {
    pub message: String,
}

impl View for ProviderError {
    type V = Seq<char>;

    open spec fn view(&self) -> Seq<char> {
        self.message@
    }
}

impl ProviderError {
    /// The failure with the given message.
    pub fn new(message: &str) -> (r: Self)
        ensures
            r@ == message@,
    {
        ProviderError { message: message.to_string() }
    }
}

/// The view of what a provider answered when asked for a node.
pub open spec fn node_answer(r: Result<Node, ProviderError>) -> Result<NodeView, Seq<char>> {
    match r {
        Ok(node) => Ok(node@),
        Err(e) => Err(e@),
    }
}

/// The view of what a provider answered when asked to act.
pub open spec fn action_answer(r: Result<(), ProviderError>) -> Result<(), Seq<char>> {
    match r {
        Ok(()) => Ok(()),
        Err(e) => Err(e@),
    }
}

/// A source of accessibility data: the platform backend behind the
/// dispatcher.
///
/// A provider answers from the live state of a user interface, so nothing is
/// promised of what a call returns: two calls with one argument may differ,
/// and a child named by a node may be gone when it is asked for.
///
/// The `may_answer_*` relations are how contracts speak of a provider: each
/// holds of a question and an answer where the provider may give that answer
/// to that question, at some time. They say nothing of a provider by
/// themselves, and an implementation that does not state them admits every
/// answer; they let the dispatcher's contracts say which question it asked
/// and what it made of the answer.
pub trait AccessibilityProvider: Send + Sync {
    /// `answer` is something the provider may say when asked for the root.
    open spec fn may_answer_root(&self, answer: Result<NodeView, Seq<char>>) -> bool {
        true
    }

    /// `answer` is something the provider may say when asked for the node
    /// `node_id`.
    open spec fn may_answer_node(
        &self,
        node_id: Seq<char>,
        answer: Result<NodeView, Seq<char>>,
    ) -> bool {
        true
    }

    /// `answer` is something the provider may say when asked to perform
    /// `action` on the node `node_id`.
    open spec fn may_answer_action(
        &self,
        node_id: Seq<char>,
        action: ActionView,
        answer: Result<(), Seq<char>>,
    ) -> bool {
        true
    }

    /// Get the root accessibility node for this process
    fn get_root(&self) -> (r: Result<Node, ProviderError>)
        ensures
            self.may_answer_root(node_answer(r)),
    ;

    /// Get all children of a given node. The dispatcher never asks this:
    /// it walks a tree node by node.
    fn get_children(&self, node_id: &NodeId) -> Result<Vec<Node>, ProviderError>;

    /// Get a specific node by ID
    fn get_node(&self, node_id: &NodeId) -> (r: Result<Node, ProviderError>)
        ensures
            self.may_answer_node(node_id@, node_answer(r)),
    ;

    /// Perform an accessibility action on a node
    fn perform_action(&self, node_id: &NodeId, action: &Action) -> (r: Result<(), ProviderError>)
        ensures
            self.may_answer_action(node_id@, action@, action_answer(r)),
    ;
}

} // verus!
