//! Component-instantiation core of a declarative, virtual-tree GUI library:
//! type-erased single-consumption property boxes, deferred child-component
//! descriptors, and the property-transformation protocol with deferred
//! callback activation.

pub mod activation;
pub mod callback;
pub mod component;
pub mod props;
pub mod scope;
pub mod transform;
pub mod vcomp;
