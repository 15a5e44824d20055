//! The message that wakes the worker.

use crate::ids::{is_hex_text, new_simple_uuid};
use vstd::prelude::*;

verus! {

/// What travels on the channel. It carries no data of the run: that it arrived
/// is the signal.
#[derive(Debug)]
pub struct Message {
    pub id: String,
    pub payload: String,
}

/// A `Message` as plain text.
pub struct MessageView {
    pub id: Seq<char>,
    pub payload: Seq<char>,
}

impl View for Message {
    type V = MessageView;

    open spec fn view(&self) -> MessageView {
        MessageView { id: self.id@, payload: self.payload@ }
    }
}

impl Message {
    /// A message with the given payload and a fresh identifier.
    pub fn new(payload: String) -> (message: Message)
        ensures
            message@.payload == payload@,
            is_hex_text(message@.id, 32),
    {
        Message { id: Message::generate_id(), payload }
    }

    fn generate_id() -> (id: String)
        ensures
            is_hex_text(id@, 32),
    {
        new_simple_uuid()
    }
}

impl Default for Message {
    /// The empty message.
    fn default() -> (message: Message)
        ensures
            message@.id.len() == 0,
            message@.payload.len() == 0,
    {
        Message { id: String::new(), payload: String::new() }
    }
}

} // verus!
