//! Deferred child-component descriptors: everything a parent's view
//! description records about a not-yet-built child — the child's type
//! identity, its boxed properties, the captured knowledge needed to
//! construct it later, and the activation slots its callbacks wait on.

use vstd::prelude::*;
use crate::activation::ActivationSlot;
use crate::component::Component;
use crate::props::{AnyProps, PropKind, PropValue, PropsFault};

verus! {

/// The identity of a concrete component type, as the reconciliation engine
/// compares it between an old and a new virtual tree.
#[derive(Clone, Copy, Debug, PartialEq, Eq, Structural, Hash)]
pub struct TypeTag(pub u64);

/// An on-screen container a freshly built child may be mounted into;
/// opaque to this core and passed through to construction unchanged.
#[derive(Clone, Copy, Debug, PartialEq, Eq, Structural)]
pub struct MountPoint {
    /// The identity of the container.
    pub id: u64,
}

/// The generic representation of a constructed child that the descriptor's
/// construction step returns; the reconciliation engine is its sole
/// consumer.
#[derive(Debug, PartialEq)]
pub struct ComponentState {
    /// The type identity of the component that was built.
    pub component_type: TypeTag,
    /// The child's construction-time properties, recovered exactly from
    /// the descriptor's box.
    pub properties: PropValue,
    /// The container the child was mounted into, if one was supplied.
    pub mount: Option<u64>,
}

/// A deferred, fully described child component of a parent `Model`: built
/// while the parent describes its view, consumed later by the
/// reconciliation engine. Immutable once built, except for the activation
/// slots, which go from empty to filled exactly once.
pub struct VComponent<Model: Component> {
    /// The child's type identity, for diffing against a previous tree.
    pub model_type: TypeTag,
    /// The kind of the boxed properties, captured at construction; the
    /// knowledge `construct` later uses to remove the type erasure.
    pub prop_type: PropKind,
    /// The child's properties, type-erased.
    pub props: AnyProps,
    /// The activation slots registered while the properties were
    /// transformed, in registration order.
    pub activators: Vec<ActivationSlot<Model>>,
}

impl<Model: Component> VComponent<Model> {
    /// A correctly built descriptor: the captured property kind is the kind
    /// of the boxed properties, so its own construction step can never hit
    /// the box's kind check.
    pub open spec fn wf(self) -> bool {
        self.props.stored_kind() == self.prop_type
    }

    /// Describes a child of type `model_type` with the given properties and
    /// the activation slots accumulated while those properties were
    /// transformed. Always succeeds; every fallible step is deferred to
    /// `construct`.
    pub fn new(
        model_type: TypeTag,
        props: PropValue,
        activators: Vec<ActivationSlot<Model>>,
    ) -> (d: Self)
        ensures
            d.wf(),
            d.model_type == model_type,
            d.prop_type == props.kind(),
            !d.props.is_consumed(),
            d.props.stored_value() == Some(props),
            d.activators == activators,
    {
        let prop_type = props.kind_of();
        VComponent { model_type, prop_type, props: AnyProps::new(props), activators }
    }

    /// The construction step the engine invokes once it decides to build
    /// this child: unboxes the properties under the captured kind and
    /// returns the constructed child's generic state, mounted into `target`
    /// if one is given. On a well-formed descriptor the kind check cannot
    /// fail; invoking construction twice faults, since the properties are
    /// gone.
    pub fn construct(&mut self, target: Option<&MountPoint>) -> (r: Result<
        ComponentState,
        PropsFault,
    >)
        requires
            old(self).wf(),
        ensures
            final(self).wf(),
            final(self).model_type == old(self).model_type,
            final(self).prop_type == old(self).prop_type,
            final(self).activators == old(self).activators,
            final(self).props.is_consumed(),
            !old(self).props.is_consumed() ==> r == Ok::<ComponentState, PropsFault>(
                ComponentState {
                    component_type: old(self).model_type,
                    properties: old(self).props.stored_value().unwrap(),
                    mount: match target {
                        Some(m) => Some(m.id),
                        None => None,
                    },
                },
            ),
            old(self).props.is_consumed() ==> r == Err::<ComponentState, PropsFault>(
                PropsFault::DoubleConsume { stored: old(self).prop_type },
            ),
    {
        let expected = self.prop_type;
        match self.props.unwrap(expected) {
            Ok(properties) => Ok(
                ComponentState {
                    component_type: self.model_type,
                    properties,
                    mount: match target {
                        Some(m) => Some(m.id),
                        None => None,
                    },
                },
            ),
            Err(fault) => Err(fault),
        }
    }
}

} // verus!
