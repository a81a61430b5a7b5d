//! Identifiers tagged at compile time with the kind of entity they name.
//!
//! [`Id<Owner>`] wraps a text value and carries its owner only in its type;
//! [`ErasedId`] holds the same text with no owner at all. Every conversion
//! between raw text and the two identifier types keeps the text exactly.

pub mod id;
pub mod laws;
pub mod text;
