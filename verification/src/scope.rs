//! The live outgoing-message channel of a component: accepts messages and
//! keeps them, in order, for the component's update loop to consume.

use vstd::prelude::*;
use crate::component::Component;

verus! {

/// A live channel into a component's update loop. Every message sent is
/// recorded in order; `sent()` is the sequence delivered so far.
pub struct Scope<Model: Component> {
    delivered: Vec<Model::Message>,
}

impl<Model: Component> Scope<Model> {
    /// The messages delivered through this channel, oldest first.
    pub closed spec fn sent(self) -> Seq<Model::Message> {
        self.delivered@
    }

    /// A fresh channel with nothing delivered yet.
    pub fn new() -> (s: Self)
        ensures
            s.sent() == Seq::<Model::Message>::empty(),
    {
        Scope { delivered: Vec::new() }
    }

    /// Delivers one message into the component's update loop.
    pub fn send_message(&mut self, message: Model::Message)
        ensures
            final(self).sent() == old(self).sent().push(message),
    {
        self.delivered.push(message);
    }

    /// The messages delivered so far.
    pub fn sent_messages(&self) -> (m: &Vec<Model::Message>)
        ensures
            m@ == self.sent(),
    {
        &self.delivered
    }
}

} // verus!
