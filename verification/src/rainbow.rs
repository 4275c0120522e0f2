//! A colour gradient that shifts by one hue step each tick.

use vstd::prelude::*;
use crate::animation::{after, Animation};
use crate::color::{hsv_pixel, hsv_to_pixel};
use crate::pixel::{Pixel, NUM_PIXELS};

verus! {

/// Saturation of every rainbow pixel.
pub const RAINBOW_SAT: u8 = 255;

/// Value of every rainbow pixel: a low brightness of the animation's own.
pub const RAINBOW_VAL: u8 = 32;

/// The rainbow animation: one hue offset.
pub struct Rainbow {
    hue: u8,
}

impl View for Rainbow {
    type V = u8;

    closed spec fn view(&self) -> u8 {
        self.hue
    }
}

/// The hue of pixel `i` when the offset is `hue`: four steps further for
/// each pixel, around the 256-step circle.
pub open spec fn pixel_hue(hue: u8, i: int) -> u8 {
    ((hue + 4 * i) % 256) as u8
}

impl Rainbow {
    /// The hue that pixel `i` has in the current state.
    pub fn hue_at(&self, i: usize) -> (h: u8)
        requires
            i < NUM_PIXELS,
        ensures
            h == pixel_hue(self@, i as int),
    {
        let step: u8 = (i * 4) as u8;
        self.hue.wrapping_add(step)
    }
}

impl Default for Rainbow {
    fn default() -> (r: Rainbow)
        ensures
            r@ == 0,
    {
        Rainbow { hue: 0 }
    }
}

impl Animation for Rainbow {
    open spec fn playable(v: u8) -> bool {
        true
    }

    open spec fn advanced(v: u8) -> u8 {
        ((v + 1) % 256) as u8
    }

    open spec fn rendered(v: u8) -> Seq<Pixel> {
        Seq::new(64, |i: int| hsv_pixel(pixel_hue(v, i), RAINBOW_SAT, RAINBOW_VAL))
    }

    fn next(&mut self) {
        self.hue = self.hue.wrapping_add(1);
    }

    fn to_list(&self) -> (frame: [Pixel; NUM_PIXELS]) {
        let mut data = [Pixel::black(); NUM_PIXELS];
        for i in 0..NUM_PIXELS
            invariant
                forall|k: int| 0 <= k < i ==> #[trigger] data@[k] == Self::rendered(self@)[k],
        {
            data[i] = hsv_to_pixel(self.hue_at(i), RAINBOW_SAT, RAINBOW_VAL);
        }
        assert(data@ =~= Self::rendered(self@));
        data
    }
}

/// After `n` ticks from hue 0 the offset is `n` modulo 256.
pub proof fn lemma_rainbow_offset_after(n: nat)
    ensures
        after::<Rainbow>(0u8, n) == n % 256,
    decreases n,
{
    if n > 0 {
        lemma_rainbow_offset_after((n - 1) as nat);
        let before: u8 = after::<Rainbow>(0u8, (n - 1) as nat);
        assert(after::<Rainbow>(0u8, n) == Rainbow::advanced(before));
        assert((before + 1) % 256 == n % 256);
    }
}

/// After `n` ticks from hue 0 pixel `i` has the hue `n + 4 * i` modulo 256,
/// and shows the colour of that hue.
pub proof fn lemma_rainbow_hue_after(n: nat, i: int)
    requires
        0 <= i < 64,
    ensures
        pixel_hue(after::<Rainbow>(0u8, n), i) == (n + 4 * i) % 256,
        Rainbow::rendered(after::<Rainbow>(0u8, n))[i] == hsv_pixel(
            ((n + 4 * i) % 256) as u8,
            RAINBOW_SAT,
            RAINBOW_VAL,
        ),
{
    lemma_rainbow_offset_after(n);
    let offset: u8 = after::<Rainbow>(0u8, n);
    assert((offset + 4 * i) % 256 == (n + 4 * i) % 256);
}

} // verus!
