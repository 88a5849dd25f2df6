//! A proof of knowledge of two secret field values whose sum is a public value:
//! the circuit that states the relation, and the rules of its proof lifecycle.
pub mod field;
pub mod allocator;
pub mod circuit;
pub mod lifecycle;
