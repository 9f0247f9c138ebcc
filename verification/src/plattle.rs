//! Palettes: a fixed table of RGB triples that belongs to a type.
use vstd::prelude::*;

verus! {

/// A palette. The implementing type is only a marker: the palette is the
/// table, which is fixed with the type and never changes.
///
/// The table holds at least one colour. Nothing here can test that, so it
/// is the duty of whoever writes a palette down, and
/// [`PlattleColor::pick`](crate::color::PlattleColor::pick) asks for it.
pub trait Plattle {
    /// The colours of the palette, in order, as (red, green, blue).
    const COLORS: &'static [(u8, u8, u8)];
}

} // verus!
