//! Callback objects: an event handler that converts a child-emitted value
//! into a parent message and dispatches it through an activation slot once
//! that slot holds the live channel.

use vstd::prelude::*;
use core::marker::PhantomData;
use crate::activation::{ActivationSlot, CallbackFault};
use crate::component::Component;

verus! {

/// An event handler for a child that emits `Argument` values. It wraps the
/// caller-supplied conversion function together with the index of the
/// activation slot, on the owning descriptor's slot list, that will hold
/// the live channel.
pub struct Callback<Argument, F> {
    /// The caller-supplied conversion from the child's emitted value to the
    /// parent's message.
    pub convert: F,
    /// The index of this callback's slot on the descriptor's slot list.
    pub slot_index: usize,
    /// Marks the child-emitted value type the conversion takes.
    pub emits: PhantomData<Argument>,
}

impl<Argument, F> Callback<Argument, F> {
    /// Wraps a conversion function and the slot it will dispatch through.
    pub fn new(convert: F, slot_index: usize) -> (c: Self)
        ensures
            c.convert == convert,
            c.slot_index == slot_index,
    {
        Callback { convert, slot_index, emits: PhantomData }
    }

    /// Converts the child's `argument` to a parent message, then dispatches
    /// it through this callback's slot on `slots`. If the slot is filled,
    /// exactly one message — the conversion applied to `argument` — is
    /// delivered on it and every other slot is untouched; if the slot is
    /// still empty (or `slots` is not the owning descriptor's list and has
    /// no such slot), the invocation faults and delivers nothing.
    pub fn invoke<Model: Component>(
        &self,
        argument: Argument,
        slots: &mut Vec<ActivationSlot<Model>>,
    ) -> (r: Result<(), CallbackFault>) where F: Fn(Argument) -> Model::Message
        requires
            call_requires(self.convert, (argument,)),
        ensures
            final(slots)@.len() == old(slots)@.len(),
            (self.slot_index < old(slots)@.len() && old(
                slots,
            )@[self.slot_index as int].is_filled()) ==> {
                &&& r == Ok::<(), CallbackFault>(())
                &&& final(slots)@[self.slot_index as int].is_filled()
                &&& exists|m: Model::Message|
                    {
                        &&& #[trigger] call_ensures(self.convert, (argument,), m)
                        &&& final(slots)@[self.slot_index as int].sent() == old(
                            slots,
                        )@[self.slot_index as int].sent().push(m)
                    }
                &&& forall|j: int|
                    0 <= j < old(slots)@.len() && j != self.slot_index ==> final(slots)@[j] == old(
                        slots,
                    )@[j]
            },
            !(self.slot_index < old(slots)@.len() && old(
                slots,
            )@[self.slot_index as int].is_filled()) ==> {
                &&& r == Err::<(), CallbackFault>(CallbackFault::NotActivated)
                &&& final(slots)@ == old(slots)@
            },
    {
        let message = (self.convert)(argument);
        if self.slot_index < slots.len() {
            let ghost before = slots@;
            let mut slot = slots.remove(self.slot_index);
            let r = slot.dispatch(message);
            slots.insert(self.slot_index, slot);
            proof {
                assert forall|j: int| 0 <= j < before.len() && j != self.slot_index implies
                    slots@[j] == before[j] by {
                    if j < self.slot_index {
                        assert(slots@[j] == before.remove(self.slot_index as int).insert(
                            self.slot_index as int,
                            slot,
                        )[j]);
                    }
                }
                if !before[self.slot_index as int].is_filled() {
                    assert(slots@ =~= before);
                }
            }
            r
        } else {
            Err(CallbackFault::NotActivated)
        }
    }
}

} // verus!
