//! Class-style single inheritance and safe runtime narrowing over a
//! flat entity model.
//!
//! A shared, type-erased entity ([`node::Node`]) accumulates one typed
//! component per class level as it is built up through a superclass
//! chain. Typed handles ([`class::ClassView`]) over such an entity can
//! always widen toward an ancestor level and fallibly narrow toward a
//! subtype level, checked by component presence. Each declared field is
//! guarded by its own reader/writer lock, in a plain-value mode and a
//! shared-pointer mode.

pub mod class;
pub mod component;
pub mod error;
pub mod field;
pub mod node;
pub mod store;
pub mod value;
