//! Playback of a precomputed clip: raw RGB frames, one after the other.

use vstd::prelude::*;
use vstd::arithmetic::div_mod::{lemma_add_mod_noop, lemma_mod_multiples_vanish, lemma_small_mod};
use crate::animation::{after, Animation};
use crate::pixel::{Pixel, NUM_PIXELS, PIXEL_WIDTH};

verus! {

/// The state of a clip player: the bytes of the clip and the frame that
/// is shown.
pub struct ClipState {
    pub data: Seq<u8>,
    pub frame: nat,
}

impl ClipState {
    /// The number of frames in the clip: 192 bytes make a frame, three for
    /// each of its 64 pixels.
    pub open spec fn frames(self) -> nat {
        self.data.len() / 192
    }

    /// Whether the clip is made of whole frames and the current frame is
    /// one of them (frame 0 where the clip is empty). Every state of a
    /// `FromRaw` is valid.
    pub open spec fn valid(self) -> bool {
        &&& self.data.len() % 192 == 0
        &&& self.frame < self.frames() || (self.frames() == 0 && self.frame == 0)
    }

    /// Where pixel `i` of the current frame starts in the clip.
    pub open spec fn offset(self, i: int) -> int {
        self.frame * 192 + i * 3
    }
}

/// Whether a blob can be played: it is made of whole frames.
pub open spec fn whole_frames(data: Seq<u8>) -> bool {
    data.len() % 192 == 0
}

/// A player of a clip of raw frames.
pub struct FromRaw {
    data: &'static [u8],
    frame: usize,
    num_frames: usize,
}

impl View for FromRaw {
    type V = ClipState;

    closed spec fn view(&self) -> ClipState {
        ClipState { data: self.data@, frame: self.frame as nat }
    }
}

impl FromRaw {
    #[verifier::type_invariant]
    spec fn consistent(self) -> bool {
        &&& self.data@.len() % 192 == 0
        &&& self.num_frames == self.data@.len() / 192
        &&& self.frame < self.num_frames || (self.num_frames == 0 && self.frame == 0)
    }

    /// A player at the first frame of `data`, which must be made of whole
    /// frames.
    pub fn new(data: &'static [u8]) -> (clip: FromRaw)
        requires
            whole_frames(data@),
        ensures
            clip@ == (ClipState { data: data@, frame: 0 }),
            clip@.valid(),
    {
        FromRaw { data, frame: 0, num_frames: data.len() / NUM_PIXELS / PIXEL_WIDTH }
    }

    /// A player at the first frame of `data`, or `None` where `data` is
    /// not made of whole frames.
    pub fn try_new(data: &'static [u8]) -> (made: Option<FromRaw>)
        ensures
            made is Some <==> whole_frames(data@),
            made matches Some(clip) ==> clip@ == (ClipState { data: data@, frame: 0 })
                && clip@.valid(),
    {
        if data.len() % (NUM_PIXELS * PIXEL_WIDTH) != 0 {
            None
        } else {
            Some(FromRaw::new(data))
        }
    }

    /// The number of frames in the clip.
    pub fn num_frames(&self) -> (n: usize)
        ensures
            n == self@.frames(),
            self@.valid(),
    {
        proof {
            use_type_invariant(self);
        }
        self.num_frames
    }
}

impl Animation for FromRaw {
    open spec fn playable(v: ClipState) -> bool {
        v.frames() > 0
    }

    open spec fn advanced(v: ClipState) -> ClipState {
        ClipState { data: v.data, frame: (v.frame + 1) % v.frames() }
    }

    open spec fn rendered(v: ClipState) -> Seq<Pixel> {
        Seq::new(
            64,
            |i: int|
                Pixel {
                    r: v.data[v.offset(i)],
                    g: v.data[v.offset(i) + 1],
                    b: v.data[v.offset(i) + 2],
                },
        )
    }

    fn next(&mut self)
        ensures
            final(self)@.valid(),
    {
        proof {
            use_type_invariant(&*self);
        }
        self.frame = (self.frame + 1) % self.num_frames;
    }

    fn to_list(&self) -> (frame: [Pixel; NUM_PIXELS])
        ensures
            self@.valid(),
    {
        proof {
            use_type_invariant(self);
        }
        let mut data = [Pixel::black(); NUM_PIXELS];
        assert(self.data@.len() == self.data.len());
        for i in 0..NUM_PIXELS
            invariant
                self.data@.len() <= usize::MAX,
                self.data@.len() % 192 == 0,
                self.frame < self.data@.len() / 192,
                forall|k: int| 0 <= k < i ==> #[trigger] data@[k] == Self::rendered(self@)[k],
        {
            assert(self.frame * 192 + 192 <= self.data@.len());
            assert(self.frame * 64 * 3 == self.frame * 192);
            let offset: usize = self.frame * NUM_PIXELS * PIXEL_WIDTH + i * PIXEL_WIDTH;
            data[i] = Pixel {
                r: self.data[offset],
                g: self.data[offset + 1],
                b: self.data[offset + 2],
            };
        }
        assert(data@ =~= Self::rendered(self@));
        data
    }
}

/// Every tick keeps a valid state of a clip with frames valid and never
/// touches the bytes of the clip: the player goes to the next frame, and
/// from the last frame back to the first.
pub proof fn lemma_clip_advanced_valid(v: ClipState)
    requires
        v.valid(),
        v.frames() > 0,
    ensures
        FromRaw::advanced(v).valid(),
        FromRaw::advanced(v).data == v.data,
        FromRaw::playable(FromRaw::advanced(v)),
        FromRaw::advanced(v).frame == if v.frame + 1 < v.frames() {
            v.frame + 1
        } else {
            0
        },
{
    if v.frame + 1 < v.frames() {
        lemma_small_mod(v.frame + 1, v.frames());
    } else {
        lemma_mod_multiples_vanish(1, 0, v.frames() as int);
        lemma_small_mod(0, v.frames());
    }
}

/// After `k` ticks a clip shows the frame `k` places on, counted around
/// the clip.
pub proof fn lemma_clip_frame_after(v: ClipState, k: nat)
    requires
        v.valid(),
        v.frames() > 0,
    ensures
        after::<FromRaw>(v, k) == (ClipState { data: v.data, frame: (v.frame + k) % v.frames() }),
    decreases k,
{
    let n: int = v.frames() as int;
    if k == 0 {
        lemma_small_mod(v.frame, v.frames());
    } else {
        lemma_clip_frame_after(v, (k - 1) as nat);
        lemma_add_mod_noop(v.frame + k - 1, 1, n);
        if n > 1 {
            lemma_small_mod(1, v.frames());
        }
    }
}

/// A clip comes round: as many ticks as the clip has frames bring a player
/// back to the state, and so to the frame, that it started from.
pub proof fn lemma_clip_cycle(v: ClipState)
    requires
        v.valid(),
        v.frames() > 0,
    ensures
        after::<FromRaw>(v, v.frames()) == v,
        FromRaw::rendered(after::<FromRaw>(v, v.frames())) == FromRaw::rendered(v),
{
    let n: int = v.frames() as int;
    lemma_clip_frame_after(v, v.frames());
    lemma_mod_multiples_vanish(1, v.frame as int, n);
    lemma_small_mod(v.frame, v.frames());
}

} // verus!
