//! The dispatcher: which animation the device shows in which orientation,
//! how its frame is turned and dimmed, and what one pass of the display
//! loop does to the state.

use vstd::prelude::*;
use crate::animation::Animation;
use crate::color::{dim_frame, dimmed, lemma_full_brightness_keeps_frame};
use crate::life::{Life, LifeState};
use crate::orientation::{classified, classify, Orientation, Tilt};
use crate::pixel::{Pixel, NUM_PIXELS};
use crate::rainbow::Rainbow;
use crate::raw::{ClipState, FromRaw};
use crate::rotate::{rotate_180, rotate_270, rotate_90, rotated_180, rotated_270, rotated_90};

verus! {

/// Frames shown in one second.
pub const FRAMES_PER_SECOND: u32 = 24;

/// Microseconds to wait after each frame.
pub const FRAME_DELAY_US: u32 = 1_000_000 / 24;

/// The state of the dispatcher: the states of the four animations that it
/// owns and the current orientation.
pub struct DispatchState {
    pub rainbow: u8,
    pub life: LifeState,
    pub long_clip: ClipState,
    pub short_clip: ClipState,
    pub mode: Orientation,
}

/// The brightness at which an orientation shows its frame.
pub open spec fn brightness_of(mode: Orientation) -> u8 {
    match mode {
        Orientation::YDown => 255,
        Orientation::XUp => 40,
        Orientation::YUp => 25,
        Orientation::XDown => 25,
    }
}

/// A frame turned so that it stands upright in an orientation.
pub open spec fn turned(mode: Orientation, frame: Seq<Pixel>) -> Seq<Pixel> {
    match mode {
        Orientation::YDown => frame,
        Orientation::XUp => rotated_90(frame),
        Orientation::YUp => rotated_180(frame),
        Orientation::XDown => rotated_270(frame),
    }
}

impl DispatchState {
    /// Whether the animation of the current orientation has a frame to
    /// show: a clip without frames cannot be played.
    pub open spec fn ready(self) -> bool {
        match self.mode {
            Orientation::YDown => true,
            Orientation::XUp => true,
            Orientation::YUp => FromRaw::playable(self.long_clip),
            Orientation::XDown => FromRaw::playable(self.short_clip),
        }
    }

    /// The frame of the animation that the current orientation selects,
    /// before it is turned and dimmed.
    pub open spec fn selected(self) -> Seq<Pixel> {
        match self.mode {
            Orientation::YDown => Rainbow::rendered(self.rainbow),
            Orientation::XUp => Life::rendered(self.life),
            Orientation::YUp => FromRaw::rendered(self.long_clip),
            Orientation::XDown => FromRaw::rendered(self.short_clip),
        }
    }

    /// The frame that goes to the matrix: the selected one, turned for the
    /// orientation and dimmed to its brightness.
    pub open spec fn shown(self) -> Seq<Pixel> {
        dimmed(turned(self.mode, self.selected()), brightness_of(self.mode))
    }

    /// The state after a frame was shown: the selected animation is one
    /// tick on, the others stand still.
    pub open spec fn stepped(self) -> DispatchState {
        match self.mode {
            Orientation::YDown => DispatchState {
                rainbow: Rainbow::advanced(self.rainbow),
                ..self
            },
            Orientation::XUp => DispatchState { life: Life::advanced(self.life), ..self },
            Orientation::YUp => DispatchState {
                long_clip: FromRaw::advanced(self.long_clip),
                ..self
            },
            Orientation::XDown => DispatchState {
                short_clip: FromRaw::advanced(self.short_clip),
                ..self
            },
        }
    }

    /// The state after a sample was taken in: only the orientation can
    /// change.
    pub open spec fn oriented(self, x: Tilt, y: Tilt) -> DispatchState {
        DispatchState { mode: classified(self.mode, x, y), ..self }
    }
}

/// The brightness at which an orientation shows its frame.
pub fn brightness_for(mode: Orientation) -> (level: u8)
    ensures
        level == brightness_of(mode),
{
    match mode {
        Orientation::YDown => 255,
        Orientation::XUp => 40,
        Orientation::YUp => 25,
        Orientation::XDown => 25,
    }
}

/// Turns a frame so that it stands upright in an orientation.
pub fn turn_for(mode: Orientation, frame: [Pixel; NUM_PIXELS]) -> (out: [Pixel; NUM_PIXELS])
    ensures
        out@ == turned(mode, frame@),
{
    match mode {
        Orientation::YDown => frame,
        Orientation::XUp => rotate_90(frame),
        Orientation::YUp => rotate_180(frame),
        Orientation::XDown => rotate_270(frame),
    }
}

/// Dims every channel of a frame to a brightness level; 255 leaves the
/// frame as it is.
pub fn apply_brightness(frame: &[Pixel; NUM_PIXELS], level: u8) -> (out: [Pixel; NUM_PIXELS])
    ensures
        out@ == dimmed(frame@, level),
        level == 255 ==> out@ == frame@,
{
    proof {
        lemma_full_brightness_keeps_frame(frame@);
    }
    dim_frame(frame, level)
}

/// The owner of the four animations and of the current orientation.
pub struct Dispatcher {
    rainbow: Rainbow,
    life: Life,
    long_clip: FromRaw,
    short_clip: FromRaw,
    mode: Orientation,
}

impl View for Dispatcher {
    type V = DispatchState;

    closed spec fn view(&self) -> DispatchState {
        DispatchState {
            rainbow: self.rainbow@,
            life: self.life@,
            long_clip: self.long_clip@,
            short_clip: self.short_clip@,
            mode: self.mode,
        }
    }
}

impl Dispatcher {
    /// A dispatcher that starts in the orientation `YDown`, with a fresh
    /// rainbow and the given automaton and clips.
    pub fn new(life: Life, long_clip: FromRaw, short_clip: FromRaw) -> (dispatcher: Dispatcher)
        ensures
            dispatcher@ == (DispatchState {
                rainbow: 0,
                life: life@,
                long_clip: long_clip@,
                short_clip: short_clip@,
                mode: Orientation::YDown,
            }),
    {
        Dispatcher {
            rainbow: Rainbow::default(),
            life,
            long_clip,
            short_clip,
            mode: Orientation::YDown,
        }
    }

    /// The current orientation.
    pub fn orientation(&self) -> (mode: Orientation)
        ensures
            mode == self@.mode,
    {
        self.mode
    }

    /// Whether the animation of the current orientation has a frame to
    /// show.
    pub fn is_ready(&self) -> (ready: bool)
        ensures
            ready == self@.ready(),
    {
        match self.mode {
            Orientation::YDown => true,
            Orientation::XUp => true,
            Orientation::YUp => self.long_clip.num_frames() > 0,
            Orientation::XDown => self.short_clip.num_frames() > 0,
        }
    }

    /// Takes a sample in: the orientation follows the two axes, the
    /// animations stay as they are.
    pub fn orient(&mut self, x: Tilt, y: Tilt)
        ensures
            final(self)@ == old(self)@.oriented(x, y),
    {
        self.mode = classify(self.mode, x, y);
    }

    /// Shows one frame: renders the animation of the current orientation,
    /// turns and dims the frame, and moves that animation, and no other,
    /// one tick on.
    pub fn show(&mut self) -> (frame: [Pixel; NUM_PIXELS])
        requires
            old(self)@.ready(),
        ensures
            frame@ == old(self)@.shown(),
            final(self)@ == old(self)@.stepped(),
    {
        let mode = self.mode;
        let frame = match mode {
            Orientation::YDown => {
                let frame = self.rainbow.to_list();
                self.rainbow.next();
                frame
            },
            Orientation::XUp => {
                let frame = self.life.to_list();
                self.life.next();
                frame
            },
            Orientation::YUp => {
                let frame = self.long_clip.to_list();
                self.long_clip.next();
                frame
            },
            Orientation::XDown => {
                let frame = self.short_clip.to_list();
                self.short_clip.next();
                frame
            },
        };
        apply_brightness(&turn_for(mode, frame), brightness_for(mode))
    }

    /// One pass of the display loop: takes the sample in, then shows a
    /// frame in the orientation that results. Where that orientation has
    /// nothing to show, the sample is taken in all the same, and there is
    /// no frame.
    pub fn step(&mut self, x: Tilt, y: Tilt) -> (frame: Option<[Pixel; NUM_PIXELS]>)
        ensures
            frame is Some <==> old(self)@.oriented(x, y).ready(),
            frame matches Some(pixels) ==> pixels@ == old(self)@.oriented(x, y).shown(),
            final(self)@ == if old(self)@.oriented(x, y).ready() {
                old(self)@.oriented(x, y).stepped()
            } else {
                old(self)@.oriented(x, y)
            },
    {
        self.orient(x, y);
        if self.is_ready() {
            Some(self.show())
        } else {
            None
        }
    }
}

/// With the device held `YDown` the matrix shows the rainbow as it is:
/// no turn, and a brightness that changes no channel.
pub proof fn lemma_y_down_shows_rainbow(s: DispatchState)
    requires
        s.mode == Orientation::YDown,
    ensures
        s.shown() == Rainbow::rendered(s.rainbow),
{
    lemma_full_brightness_keeps_frame(Rainbow::rendered(s.rainbow));
}

/// Showing a frame moves only the animation of the current orientation and
/// leaves the orientation as it is.
pub proof fn lemma_only_selected_advances(s: DispatchState)
    ensures
        s.stepped().mode == s.mode,
        s.mode != Orientation::YDown ==> s.stepped().rainbow == s.rainbow,
        s.mode != Orientation::XUp ==> s.stepped().life == s.life,
        s.mode != Orientation::YUp ==> s.stepped().long_clip == s.long_clip,
        s.mode != Orientation::XDown ==> s.stepped().short_clip == s.short_clip,
{
}

} // verus!
