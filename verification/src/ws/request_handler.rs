//! Routing of responses to the callers that wait for them, by request id.

use vstd::prelude::*;
use std::collections::HashMap;

verus! {

broadcast use vstd::std_specs::hash::group_hash_axioms;

/// The sending half of a one-shot channel. Opaque: values of it are only
/// carried and sent through.
#[verifier::external_type_specification]
#[verifier::external_body]
#[verifier::reject_recursive_types(T)]
pub struct ExOneshotSender<T>(tokio::sync::oneshot::Sender<T>);

/// Sends a value on a one-shot channel (`tokio::sync::oneshot::Sender::send`);
/// true when it was delivered. Whether the receiver is still there depends
/// on other tasks, so nothing is stated of the result.
#[verifier::external_body]
fn oneshot_send(sender: tokio::sync::oneshot::Sender<serde_json::Value>, value: serde_json::Value) -> (delivered: bool) {
    sender.send(value).is_ok()
}

/// Handles pending WebSocket requests by mapping request IDs to response
/// channels.
#[derive(Debug)]
pub struct RequestHandler {
    pending: HashMap<u64, tokio::sync::oneshot::Sender<serde_json::Value>>,
}

impl RequestHandler {
    /// The ids of the pending requests.
    pub closed spec fn pending_ids(&self) -> Set<u64> {
        self.pending@.dom()
    }

    /// Creates a new empty request handler.
    pub fn new() -> (h: Self)
        ensures
            h.pending_ids() == Set::<u64>::empty(),
    {
        RequestHandler { pending: HashMap::new() }
    }

    /// Registers a pending request with its response channel, replacing an
    /// earlier registration under the same id.
    pub fn register(&mut self, request_id: u64, sender: tokio::sync::oneshot::Sender<serde_json::Value>)
        ensures
            final(self).pending_ids() == old(self).pending_ids().insert(request_id),
    {
        self.pending.insert(request_id, sender);
    }

    /// Routes a response to the request it answers: the request is no
    /// longer pending. Returns false when no request with that id was
    /// pending (or its receiver was gone).
    pub fn handle_response(&mut self, request_id: u64, response: serde_json::Value) -> (routed: bool)
        ensures
            final(self).pending_ids() == old(self).pending_ids().remove(request_id),
            !old(self).pending_ids().contains(request_id) ==> !routed,
    {
        match self.pending.remove(&request_id) {
            Some(sender) => oneshot_send(sender, response),
            None => {
                proof {
                    assert(self.pending_ids() =~= old(self).pending_ids().remove(request_id));
                }
                false
            },
        }
    }

    /// Returns the number of pending requests.
    pub fn pending_count(&self) -> (n: usize)
        ensures
            n == self.pending_ids().len(),
    {
        self.pending.len()
    }

    /// Cancels all pending requests by dropping their senders.
    pub fn cancel_all(&mut self)
        ensures
            final(self).pending_ids() == Set::<u64>::empty(),
    {
        self.pending.clear();
        proof {
            assert(self.pending_ids() =~= Set::<u64>::empty());
        }
    }
}

impl Default for RequestHandler {
    fn default() -> (h: Self)
        ensures
            h.pending_ids() == Set::<u64>::empty(),
    {
        RequestHandler::new()
    }
}

} // verus!
