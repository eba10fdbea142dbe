//! The component contract a parent type fulfils: it fixes the message type
//! that the parent's update loop consumes, which is the type every live
//! channel and callback of that parent's descriptors carries.

use vstd::prelude::*;

verus! {

/// A component, identified here only by the message type its update loop
/// takes. Descriptors, activation slots and callbacks for children of a
/// parent `Model: Component` all carry `Model::Message` values.
pub trait Component {
    /// The message type delivered into this component's update loop.
    type Message;
}

} // verus!
