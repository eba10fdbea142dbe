//! Activation slots: deferred binding points for a live outgoing-message
//! channel. A slot is registered empty while a descriptor is being built and
//! is filled exactly once, by the engine, after the child is constructed.

use vstd::prelude::*;
use crate::component::Component;
use crate::scope::Scope;

verus! {

/// The fault a callback invocation reports. It marks a violation of the
/// build-then-activate ordering by the surrounding engine, never an
/// ordinary runtime condition.
#[derive(Clone, Copy, Debug, PartialEq, Eq, Structural)]
pub enum CallbackFault {
    /// The callback was invoked before its activation slot was filled.
    NotActivated,
}

/// A deferred binding point for a live channel: empty when registered on a
/// descriptor, filled exactly once by the engine after construction, and
/// never cleared again (no operation empties a filled slot).
pub struct ActivationSlot<Model: Component> {
    filled: bool,
    channel: Scope<Model>,
}

impl<Model: Component> ActivationSlot<Model> {
    /// Whether the live channel has been bound yet.
    pub closed spec fn is_filled(self) -> bool {
        self.filled
    }

    /// The messages dispatched through this slot so far.
    pub closed spec fn sent(self) -> Seq<Model::Message> {
        self.channel.sent()
    }

    /// A fresh, still-empty slot.
    pub fn new() -> (s: Self)
        ensures
            !s.is_filled(),
            s.sent() == Seq::<Model::Message>::empty(),
    {
        ActivationSlot { filled: false, channel: Scope::new() }
    }

    /// Whether the live channel has been bound yet.
    pub fn is_live(&self) -> (b: bool)
        ensures
            b == self.is_filled(),
    {
        self.filled
    }

    /// Binds the live channel. The write-once discipline is part of the
    /// contract: only an empty slot may be filled.
    pub fn fill(&mut self, channel: Scope<Model>)
        requires
            !old(self).is_filled(),
        ensures
            final(self).is_filled(),
            final(self).sent() == channel.sent(),
    {
        self.filled = true;
        self.channel = channel;
    }

    /// Sends one message through the bound channel; faults, changing
    /// nothing, if the slot is still empty.
    pub fn dispatch(&mut self, message: Model::Message) -> (r: Result<(), CallbackFault>)
        ensures
            old(self).is_filled() ==> {
                &&& r == Ok::<(), CallbackFault>(())
                &&& final(self).is_filled()
                &&& final(self).sent() == old(self).sent().push(message)
            },
            !old(self).is_filled() ==> {
                &&& r == Err::<(), CallbackFault>(CallbackFault::NotActivated)
                &&& *final(self) == *old(self)
            },
    {
        if self.filled {
            self.channel.send_message(message);
            Ok(())
        } else {
            Err(CallbackFault::NotActivated)
        }
    }

    /// The messages dispatched through this slot so far.
    pub fn sent_messages(&self) -> (m: &Vec<Model::Message>)
        ensures
            m@ == self.sent(),
    {
        self.channel.sent_messages()
    }
}

} // verus!
