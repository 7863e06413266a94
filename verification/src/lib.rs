//! A value-level type-projection registry.
//!
//! For every type shape it covers, the registry defines a canonical
//! self-contained counterpart: the same shape with every scoped reference
//! replaced by one that may be stored indefinitely. The two identity
//! queries of the [`Staticize`] trait, [`Staticize::static_type_id`] and
//! [`Staticize::static_type_name`], report a stable identifier and a
//! display name of that counterpart — never of the source shape itself — so
//! that two source shapes with the same counterpart report the same
//! identity, on purpose.
//!
//! The projection covers leaves (primitives, text, the atomic wrappers),
//! references, slice references, tuples of arity 1 through 16, optionals,
//! success-or-error pairs, early-exit control values, range endpoints, and
//! the common owned containers. A shape no rule covers has no counterpart:
//! resolution is refused rather than falling back to the shape itself, which
//! would break self-containment. New leaves and new tuple arities can be
//! registered through [`Registry::register_self_contained`] and
//! [`Registry::register_tuple_projection`].

pub mod identity;
pub mod laws;
pub mod project;
pub mod registry;
pub mod ty;

pub use identity::enc;
pub use identity::enc_list;
pub use identity::encode;
pub use identity::name_of;
pub use identity::names_of;
pub use identity::render_name;
pub use identity::Staticize;
pub use project::static_of;
pub use project::static_of_list;
pub use project::ProjectionError;
pub use registry::Registry;
pub use registry::BUILTIN_MAX_TUPLE_ARITY;
pub use ty::Leaf;
pub use ty::Lifetime;
pub use ty::Ty;
pub use ty::TyList;
