//! Colours without an opacity of their own: plain RGB triples, and colours
//! picked from a palette.
use crate::plattle::Plattle;
use std::marker::PhantomData;
use vstd::arithmetic::div_mod::lemma_mod_add_multiples_vanish;
use vstd::arithmetic::div_mod::lemma_mod_decreases;
use vstd::prelude::*;

verus! {

/// A colour that is fully opaque by nature, so that its red, green and blue
/// components say all there is to say about it.
pub trait SimpleColor {
    /// The components that a value stands for, as (red, green, blue).
    ///
    /// The colours of this module say what theirs are. For a type that does
    /// not, this is some fixed triple for each value, of which nothing more
    /// is known.
    open spec fn spec_rgb(&self) -> (u8, u8, u8) {
        arbitrary::<spec_fn(&Self) -> (u8, u8, u8)>()(self)
    }

    /// The components as (red, green, blue). The answer depends on the
    /// value alone: asking again gives the same triple.
    fn rgb(&self) -> (c: (u8, u8, u8))
        ensures
            c == self.spec_rgb(),
    ;
}

/// A colour of the palette `P`, held as a position in its table.
pub struct PlattleColor<P: Plattle>(usize, PhantomData<P>);

impl<P: Plattle> View for PlattleColor<P> {
    type V = nat;

    /// The position in the table of `P`, counted from zero.
    closed spec fn view(&self) -> nat {
        self.0 as nat
    }
}

impl<P: Plattle> PlattleColor<P> {
    /// The position is one of the table, whatever index was asked for.
    #[verifier::type_invariant]
    spec fn in_table(&self) -> bool {
        self.0 < P::COLORS@.len()
    }

    /// The colour that `pick` returns for `idx`.
    pub closed spec fn spec_pick(idx: usize) -> PlattleColor<P> {
        PlattleColor((idx as int % P::COLORS@.len() as int) as usize, PhantomData)
    }

    /// Pick a colour from the palette. The index counts round the table:
    /// past the last entry it starts again at the first, so every index
    /// picks a colour and none is refused.
    #[verifier::when_used_as_spec(spec_pick)]
    pub fn pick(idx: usize) -> (color: PlattleColor<P>)
        requires
            P::COLORS@.len() > 0,
        ensures
            color == Self::spec_pick(idx),
            color@ == idx as int % P::COLORS@.len() as int,
            color@ < P::COLORS@.len(),
            color.spec_rgb() == P::COLORS@[idx as int % P::COLORS@.len() as int],
    {
        PlattleColor(idx % P::COLORS.len(), PhantomData)
    }
}

impl<P: Plattle> SimpleColor for PlattleColor<P> {
    /// The entry of the table at the colour's position.
    open spec fn spec_rgb(&self) -> (u8, u8, u8) {
        P::COLORS@[self@ as int]
    }

    /// Looks the colour up in the table of `P`. The position of a colour
    /// that exists is always inside the table.
    fn rgb(&self) -> (c: (u8, u8, u8))
        ensures
            self@ < P::COLORS@.len(),
            c == P::COLORS@[self@ as int],
    {
        proof {
            use_type_invariant(self);
        }
        P::COLORS[self.0]
    }
}

/// The colour described by its red, green and blue values.
pub struct RGBColor(pub u8, pub u8, pub u8);

impl SimpleColor for RGBColor {
    /// The three fields, in the order in which they were given.
    open spec fn spec_rgb(&self) -> (u8, u8, u8) {
        (self.0, self.1, self.2)
    }

    fn rgb(&self) -> (c: (u8, u8, u8))
        ensures
            c == (self.0, self.1, self.2),
    {
        (self.0, self.1, self.2)
    }
}

/// A picked colour sits at the index taken modulo the length of the table,
/// and has the components that the table holds there.
pub proof fn lemma_pick_reads_table<P: Plattle>(idx: usize)
    requires
        P::COLORS@.len() > 0,
    ensures
        PlattleColor::<P>::pick(idx)@ == idx as int % P::COLORS@.len() as int,
        PlattleColor::<P>::pick(idx)@ < P::COLORS@.len(),
        PlattleColor::<P>::pick(idx).spec_rgb() == P::COLORS@[idx as int % P::COLORS@.len() as int],
{
    lemma_mod_decreases(idx as nat, P::COLORS@.len());
}

/// Two indices that leave the same remainder on division by the length of
/// the table pick the same colour.
pub proof fn lemma_pick_congruent<P: Plattle>(i: usize, j: usize)
    requires
        P::COLORS@.len() > 0,
        i as int % P::COLORS@.len() as int == j as int % P::COLORS@.len() as int,
    ensures
        PlattleColor::<P>::pick(i) == PlattleColor::<P>::pick(j),
        PlattleColor::<P>::pick(i).spec_rgb() == PlattleColor::<P>::pick(j).spec_rgb(),
{
}

/// Going once more round the table changes nothing: the index `k` plus the
/// length of the table picks what `k` picks. With `k` zero, the length
/// itself picks the first entry.
pub proof fn lemma_pick_wraps<P: Plattle>(k: usize)
    requires
        P::COLORS@.len() > 0,
        k + P::COLORS@.len() <= usize::MAX,
    ensures
        PlattleColor::<P>::pick((k + P::COLORS@.len()) as usize) == PlattleColor::<P>::pick(k),
        PlattleColor::<P>::pick((k + P::COLORS@.len()) as usize).spec_rgb()
            == P::COLORS@[k as int % P::COLORS@.len() as int],
{
    let n = P::COLORS@.len();
    lemma_mod_add_multiples_vanish(k as int, n as int);
    lemma_pick_congruent::<P>((k + n) as usize, k);
    lemma_pick_reads_table::<P>(k);
}

} // verus!
