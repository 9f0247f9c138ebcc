//! Opaque colours: plain RGB triples, and colours named by their position in
//! a palette that is fixed by a type.
pub mod color;
pub mod plattle;
