//! The property-transformation protocol: the coercion rules, one per
//! supported argument shape, that turn a caller-supplied value into the
//! exact property the child expects. The rules run against the activation-
//! slot list being accumulated for the descriptor under construction; the
//! event-handler rule is the only one with a side effect, registering one
//! fresh, empty slot per callback it produces.

use vstd::prelude::*;
use vstd::string::StringExecFns;
use crate::activation::ActivationSlot;
use crate::callback::Callback;
use crate::component::Component;

verus! {

/// One coercion rule, from a caller-supplied `Source` argument to the
/// `Target` property type the child of a parent `Model` expects. The rules
/// are implemented on the descriptor's activation-slot list, so that the
/// event-handler rule can register the slot it allocates.
pub trait PropTransform<Model: Component, Source, Target> {
    /// Coerces one caller-supplied argument.
    fn transform(&mut self, from: Source) -> Target;
}

/// Identical-type pass-through: the value is handed through unchanged and
/// no slot is registered.
impl<Model: Component, A> PropTransform<Model, A, A> for Vec<ActivationSlot<Model>> {
    fn transform(&mut self, from: A) -> (out: A)
        ensures
            final(self)@ == old(self)@,
            out == from,
    {
        from
    }
}

/// Reference-to-owned: the referenced value is duplicated into an owned
/// value; no slot is registered.
impl<'a, Model: Component, A: Clone> PropTransform<Model, &'a A, A> for Vec<
    ActivationSlot<Model>,
> {
    fn transform(&mut self, from: &'a A) -> (out: A)
        ensures
            final(self)@ == old(self)@,
            cloned::<A>(*from, out),
    {
        from.clone()
    }
}

/// Text-slice-to-owned-string: the borrowed text is copied into an owned
/// string with the same characters; no slot is registered.
impl<'a, Model: Component> PropTransform<Model, &'a str, String> for Vec<ActivationSlot<Model>> {
    fn transform(&mut self, from: &'a str) -> (out: String)
        ensures
            final(self)@ == old(self)@,
            <String as View>::view(&out) == from@,
    {
        String::from_str(from)
    }
}

/// Function-to-callback: a conversion function from the child's emitted
/// value to the parent's message becomes a not-yet-live callback. This is
/// the one rule with a side effect: it registers exactly one fresh, empty
/// activation slot at the end of the list, and the callback it returns
/// dispatches through that slot.
impl<Model, A, F> PropTransform<Model, F, Option<Callback<A, F>>> for Vec<
    ActivationSlot<Model>,
> where Model: Component, F: Fn(A) -> Model::Message {
    fn transform(&mut self, from: F) -> (out: Option<Callback<A, F>>)
        ensures
            final(self)@.len() == old(self)@.len() + 1,
            forall|j: int| 0 <= j < old(self)@.len() ==> final(self)@[j] == old(self)@[j],
            !final(self)@[old(self)@.len() as int].is_filled(),
            final(self)@[old(self)@.len() as int].sent() == Seq::<Model::Message>::empty(),
            out matches Some(c) && c.convert == from && c.slot_index == old(self)@.len(),
    {
        let slot = ActivationSlot::new();
        let slot_index = self.len();
        self.push(slot);
        Some(Callback::new(from, slot_index))
    }
}

} // verus!
