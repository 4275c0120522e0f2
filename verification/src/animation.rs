//! What every animation offers: a state that moves one tick at a time and
//! shows as a frame.

use vstd::prelude::*;
use crate::pixel::{Pixel, NUM_PIXELS};

verus! {

/// An animation is a state machine over its view: `next` moves the state one
/// tick, `to_list` shows the state as a frame and leaves it as it is.
pub trait Animation: View {
    /// Whether a state can be shown and moved on.
    spec fn playable(v: Self::V) -> bool;

    /// The state one tick after `v`.
    spec fn advanced(v: Self::V) -> Self::V;

    /// The 64 pixels that show the state `v`.
    spec fn rendered(v: Self::V) -> Seq<Pixel>;

    /// Moves the animation on by one tick.
    fn next(&mut self)
        requires
            Self::playable(old(self)@),
        ensures
            Self::playable(final(self)@),
            final(self)@ == Self::advanced(old(self)@),
    ;

    /// The frame of the current state.
    fn to_list(&self) -> (frame: [Pixel; NUM_PIXELS])
        requires
            Self::playable(self@),
        ensures
            frame@ == Self::rendered(self@),
    ;
}

/// The state `n` ticks after `v`.
pub open spec fn after<A: Animation>(v: A::V, n: nat) -> A::V
    decreases n,
{
    if n == 0 {
        v
    } else {
        A::advanced(after::<A>(v, (n - 1) as nat))
    }
}

/// Ticks add up: `m + n` ticks are `m` ticks followed by `n` ticks.
pub proof fn lemma_after_plus<A: Animation>(v: A::V, m: nat, n: nat)
    ensures
        after::<A>(v, m + n) == after::<A>(after::<A>(v, m), n),
    decreases n,
{
    if n > 0 {
        lemma_after_plus::<A>(v, m, (n - 1) as nat);
        assert(m + n - 1 == m + (n - 1) as nat);
    }
}

} // verus!
