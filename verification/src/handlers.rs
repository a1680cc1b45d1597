//! The decisions of the message-creation endpoint.
use vstd::prelude::*;

use crate::action_builder::{action_error_message, validate_action, validation_spec};
use crate::message::Message;
use crate::time::Timestamp;

verus! {

/// An HTTP reply: status code and body text.
pub struct Reply {
    pub status: u16,
    pub body: String,
}

/// What to do with a message submitted for creation.
pub enum CreateDecision {
    /// Refuse it with this reply.
    Reject(Reply),
    /// Store it.
    Store,
}

/// Checks a submitted message: one whose action cannot be built is refused
/// with status 400 and the error's message; any other is stored.
pub fn begin_create(msg: &Message) -> (r: CreateDecision)
    ensures
        match validation_spec(msg.action_type, msg.attributes) {
            None => r is Store,
            Some(e) => r matches CreateDecision::Reject(reply) && reply.status == 400
                && reply.body@ == action_error_message(e),
        },
{
    match validate_action(msg) {
        Some(err) => CreateDecision::Reject(Reply { status: 400, body: err.to_string() }),
        None => CreateDecision::Store,
    }
}

/// The reply once storing was tried: 201 when stored, with the delivery
/// time to pass on to the schedule; 500 otherwise. Both have an empty body.
pub fn finish_create(msg: &Message, stored: bool) -> (r: (Reply, Option<Timestamp>))
    ensures
        r.0.body@.len() == 0,
        stored ==> r.0.status == 201 && r.1 == Some(msg.delivery_time),
        !stored ==> r.0.status == 500 && r.1 is None,
{
    if stored {
        (Reply { status: 201, body: String::new() }, Some(msg.delivery_time))
    } else {
        (Reply { status: 500, body: String::new() }, None)
    }
}

} // verus!
