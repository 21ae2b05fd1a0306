//! Discriminant-only hashing for enumerations, generated from a description
//! of the type's shape.
//!
//! Given a description of an enumeration (its name, generic parameters and
//! variants), the generator emits the source text of a `std::hash::Hash`
//! implementation whose result depends only on which variant a value holds,
//! never on the fields inside it. Applied to anything that is not an
//! enumeration, it reports the single diagnostic the facility knows.

pub mod description;
pub mod generate;
pub mod render;
pub mod tag;
