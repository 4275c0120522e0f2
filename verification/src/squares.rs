//! A hollow square that pulses between the edge of the grid and its
//! centre, one radius step in every 24 ticks.

use vstd::prelude::*;
use crate::animation::{after, lemma_after_plus, Animation};
use crate::pixel::{dark, lit, Pixel, NUM_PIXELS};

verus! {

/// The state of the pulsing square: its distance from the edge, whether it
/// is moving back towards the edge, and the tick within the current cycle.
pub struct SquaresState {
    pub radius: nat,
    pub shrinking: bool,
    pub tick: nat,
}

impl SquaresState {
    /// Whether the radius lies in 0..=3 and the tick within the cycle. Every
    /// state of a `Squares` is valid.
    pub open spec fn valid(self) -> bool {
        self.radius <= 3 && self.tick < 24
    }

    /// The state at the start of the next cycle: the radius moves one step
    /// in its direction, and turns round at 0 and at 3.
    pub open spec fn bounced(self) -> SquaresState {
        if self.shrinking {
            if self.radius == 0 {
                SquaresState { radius: 1, shrinking: false, tick: 0 }
            } else {
                SquaresState { radius: (self.radius - 1) as nat, shrinking: true, tick: 0 }
            }
        } else {
            if self.radius >= 3 {
                SquaresState { radius: (self.radius - 1) as nat, shrinking: true, tick: 0 }
            } else {
                SquaresState { radius: self.radius + 1, shrinking: false, tick: 0 }
            }
        }
    }
}

/// Whether the cell at `(x, y)` lies on the outline of the square that
/// keeps the distance `r` from every edge.
pub open spec fn on_ring(x: int, y: int, r: int) -> bool {
    ((x == r || x == 7 - r) && r <= y <= 7 - r) || ((y == r || y == 7 - r) && r <= x <= 7 - r)
}

/// The pulsing square.
pub struct Squares {
    frame: usize,
    increment_counter: usize,
    direction: bool,
}

impl View for Squares {
    type V = SquaresState;

    closed spec fn view(&self) -> SquaresState {
        SquaresState {
            radius: self.frame as nat,
            shrinking: self.direction,
            tick: self.increment_counter as nat,
        }
    }
}

impl Squares {
    #[verifier::type_invariant]
    spec fn within_bounds(self) -> bool {
        self.frame <= 3 && self.increment_counter < 24
    }
}

impl Default for Squares {
    fn default() -> (squares: Squares)
        ensures
            squares@ == (SquaresState { radius: 0, shrinking: false, tick: 0 }),
    {
        Squares { frame: 0, increment_counter: 0, direction: false }
    }
}

impl Animation for Squares {
    open spec fn playable(v: SquaresState) -> bool {
        true
    }

    open spec fn advanced(v: SquaresState) -> SquaresState {
        if (v.tick + 1) % 24 == 0 {
            v.bounced()
        } else {
            SquaresState { tick: (v.tick + 1) % 24, ..v }
        }
    }

    open spec fn rendered(v: SquaresState) -> Seq<Pixel> {
        Seq::new(64, |i: int| if on_ring(i % 8, i / 8, v.radius as int) { lit() } else { dark() })
    }

    fn next(&mut self)
        ensures
            final(self)@.valid(),
    {
        proof {
            use_type_invariant(&*self);
        }
        self.increment_counter = (self.increment_counter + 1) % 24;
        if self.increment_counter == 0 {
            if self.direction {
                if self.frame <= 0 {
                    self.direction = false;
                    self.frame += 1;
                } else {
                    self.frame -= 1;
                }
            } else {
                if self.frame >= 3 {
                    self.direction = true;
                    self.frame -= 1;
                } else {
                    self.frame += 1;
                }
            }
        }
    }

    fn to_list(&self) -> (frame: [Pixel; NUM_PIXELS])
        ensures
            self@.valid(),
    {
        proof {
            use_type_invariant(self);
        }
        let mut data = [Pixel::black(); NUM_PIXELS];
        for i in 0..NUM_PIXELS
            invariant
                self.frame <= 3,
                forall|k: int| 0 <= k < i ==> #[trigger] data@[k] == Self::rendered(self@)[k],
        {
            let x: usize = i % 8;
            let y: usize = i / 8;
            let near: usize = self.frame;
            let far: usize = 7 - self.frame;
            data[i] = if ((x == near || x == far) && (y >= near && y <= far)) || ((y == near || y
                == far) && (x >= near && x <= far)) {
                Pixel::white()
            } else {
                Pixel::black()
            };
        }
        assert(data@ =~= Self::rendered(self@));
        data
    }
}

/// Within a cycle a tick only moves the tick count: `k` ticks that do not
/// reach the end of the cycle leave radius and direction as they are.
pub proof fn lemma_squares_hold_within_cycle(v: SquaresState, k: nat)
    requires
        v.tick + k < 24,
    ensures
        after::<Squares>(v, k) == (SquaresState { tick: v.tick + k, ..v }),
    decreases k,
{
    if k > 0 {
        lemma_squares_hold_within_cycle(v, (k - 1) as nat);
    }
}

/// The radius moves by exactly one step in every 24 ticks: 24 ticks from
/// the start of a cycle end at the start of the next one, one bounce on.
pub proof fn lemma_squares_step_every_24(v: SquaresState)
    requires
        v.tick == 0,
    ensures
        after::<Squares>(v, 24) == v.bounced(),
{
    lemma_squares_hold_within_cycle(v, 23);
}

/// The state of a new `Squares` after `c` whole cycles: the radius runs
/// up from 0 to 3 and down again, six cycles for the round trip.
pub open spec fn squares_at_cycle(c: nat) -> SquaresState {
    let m: nat = c % 6;
    if c == 0 {
        SquaresState { radius: 0, shrinking: false, tick: 0 }
    } else {
        SquaresState {
            radius: if m <= 3 { m } else { (6 - m) as nat },
            shrinking: m == 0 || m > 3,
            tick: 0,
        }
    }
}

/// From its first state the square takes one radius step in every 24
/// ticks: up to 3 after 72 ticks, then down again.
pub proof fn lemma_squares_after_cycles(c: nat)
    ensures
        after::<Squares>(squares_at_cycle(0), 24 * c) == squares_at_cycle(c),
        c <= 3 ==> squares_at_cycle(c).radius == c,
        squares_at_cycle(3) == (SquaresState { radius: 3, shrinking: false, tick: 0 }),
        squares_at_cycle(4) == (SquaresState { radius: 2, shrinking: true, tick: 0 }),
    decreases c,
{
    if c > 0 {
        let before: nat = (c - 1) as nat;
        lemma_squares_after_cycles(before);
        lemma_after_plus::<Squares>(squares_at_cycle(0), 24 * before, 24);
        lemma_squares_step_every_24(squares_at_cycle(before));
        assert(24 * before + 24 == 24 * c);
        assert(squares_at_cycle(before).bounced() == squares_at_cycle(c));
    }
}

/// Every tick keeps a valid state valid.
pub proof fn lemma_squares_advanced_valid(v: SquaresState)
    requires
        v.valid(),
    ensures
        Squares::advanced(v).valid(),
{
}

} // verus!
