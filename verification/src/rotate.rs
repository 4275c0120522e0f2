//! Quarter-turn rotations of a frame.

use vstd::prelude::*;
use crate::pixel::{cell_index, on_grid, Pixel, NUM_PIXELS};

verus! {

/// The frame `s` turned a quarter turn clockwise: the cell at `(x, y)` moves
/// to `(7 - y, x)`, so position `k` of the result shows what stood in column
/// `k / 8` and row `7 - k % 8`.
pub open spec fn rotated_90<A>(s: Seq<A>) -> Seq<A> {
    Seq::new(64, |k: int| s[cell_index(k / 8, 7 - k % 8)])
}

/// The frame `s` turned half a turn: the cell at `(x, y)` moves to
/// `(7 - x, 7 - y)`.
pub open spec fn rotated_180<A>(s: Seq<A>) -> Seq<A> {
    Seq::new(64, |k: int| s[cell_index(7 - k % 8, 7 - k / 8)])
}

/// The frame `s` turned a quarter turn counter-clockwise: the cell at
/// `(x, y)` moves to `(y, 7 - x)`.
pub open spec fn rotated_270<A>(s: Seq<A>) -> Seq<A> {
    Seq::new(64, |k: int| s[cell_index(7 - k / 8, k % 8)])
}

/// Turns a frame a quarter turn clockwise.
pub fn rotate_90(data: [Pixel; NUM_PIXELS]) -> (out: [Pixel; NUM_PIXELS])
    ensures
        out@ == rotated_90(data@),
{
    let mut temp = [Pixel::black(); NUM_PIXELS];
    for i in 0..8usize
        invariant
            forall|k: int|
                0 <= k < 64 && 7 - k % 8 < i ==> #[trigger] temp@[k] == data@[cell_index(
                    k / 8,
                    7 - k % 8,
                )],
    {
        for j in 0..8usize
            invariant
                0 <= i < 8,
                forall|k: int|
                    0 <= k < 64 && (7 - k % 8 < i || (7 - k % 8 == i && k / 8 < j))
                        ==> #[trigger] temp@[k] == data@[cell_index(k / 8, 7 - k % 8)],
        {
            let index: usize = i * 8 + j;
            let new_index: usize = j * 8 + (7 - i);
            temp[new_index] = data[index];
        }
    }
    assert(temp@ =~= rotated_90(data@));
    temp
}

/// Turns a frame half a turn.
pub fn rotate_180(data: [Pixel; NUM_PIXELS]) -> (out: [Pixel; NUM_PIXELS])
    ensures
        out@ == rotated_180(data@),
{
    let mut temp = [Pixel::black(); NUM_PIXELS];
    for i in 0..8usize
        invariant
            forall|k: int|
                0 <= k < 64 && 7 - k / 8 < i ==> #[trigger] temp@[k] == data@[cell_index(
                    7 - k % 8,
                    7 - k / 8,
                )],
    {
        for j in 0..8usize
            invariant
                0 <= i < 8,
                forall|k: int|
                    0 <= k < 64 && (7 - k / 8 < i || (7 - k / 8 == i && 7 - k % 8 < j))
                        ==> #[trigger] temp@[k] == data@[cell_index(7 - k % 8, 7 - k / 8)],
        {
            let index: usize = i * 8 + j;
            let new_index: usize = (7 - i) * 8 + (7 - j);
            temp[new_index] = data[index];
        }
    }
    assert(temp@ =~= rotated_180(data@));
    temp
}

/// Turns a frame a quarter turn counter-clockwise.
pub fn rotate_270(data: [Pixel; NUM_PIXELS]) -> (out: [Pixel; NUM_PIXELS])
    ensures
        out@ == rotated_270(data@),
{
    let mut temp = [Pixel::black(); NUM_PIXELS];
    for i in 0..8usize
        invariant
            forall|k: int|
                0 <= k < 64 && k % 8 < i ==> #[trigger] temp@[k] == data@[cell_index(
                    7 - k / 8,
                    k % 8,
                )],
    {
        for j in 0..8usize
            invariant
                0 <= i < 8,
                forall|k: int|
                    0 <= k < 64 && (k % 8 < i || (k % 8 == i && 7 - k / 8 < j))
                        ==> #[trigger] temp@[k] == data@[cell_index(7 - k / 8, k % 8)],
        {
            let index: usize = i * 8 + j;
            let new_index: usize = (7 - j) * 8 + i;
            temp[new_index] = data[index];
        }
    }
    assert(temp@ =~= rotated_270(data@));
    temp
}

/// A quarter turn clockwise moves the cell at `(x, y)` to `(7 - y, x)`.
pub proof fn lemma_rotated_90_moves<A>(s: Seq<A>, x: int, y: int)
    requires
        s.len() == 64,
        on_grid(x, y),
    ensures
        rotated_90(s)[cell_index(7 - y, x)] == s[cell_index(x, y)],
{
}

/// A half turn moves the cell at `(x, y)` to `(7 - x, 7 - y)`.
pub proof fn lemma_rotated_180_moves<A>(s: Seq<A>, x: int, y: int)
    requires
        s.len() == 64,
        on_grid(x, y),
    ensures
        rotated_180(s)[cell_index(7 - x, 7 - y)] == s[cell_index(x, y)],
{
}

/// A quarter turn counter-clockwise moves the cell at `(x, y)` to
/// `(y, 7 - x)`.
pub proof fn lemma_rotated_270_moves<A>(s: Seq<A>, x: int, y: int)
    requires
        s.len() == 64,
        on_grid(x, y),
    ensures
        rotated_270(s)[cell_index(y, 7 - x)] == s[cell_index(x, y)],
{
}

/// Column and row are recovered from a position by remainder and quotient.
pub proof fn lemma_cell_index_parts(x: int, y: int)
    requires
        on_grid(x, y),
    ensures
        0 <= cell_index(x, y) < 64,
        cell_index(x, y) % 8 == x,
        cell_index(x, y) / 8 == y,
{
}

/// Two quarter turns clockwise make a half turn.
pub proof fn lemma_rotate_90_twice<A>(s: Seq<A>)
    requires
        s.len() == 64,
    ensures
        rotated_90(rotated_90(s)) == rotated_180(s),
{
    let once = rotated_90(s);
    assert forall|k: int| 0 <= k < 64 implies rotated_90(once)[k] == rotated_180(s)[k] by {
        let m: int = cell_index(k / 8, 7 - k % 8);
        lemma_cell_index_parts(k / 8, 7 - k % 8);
        assert(rotated_90(once)[k] == once[m]);
        assert(once[m] == s[cell_index(m / 8, 7 - m % 8)]);
    }
    assert(rotated_90(once) =~= rotated_180(s));
}

/// Two half turns give the frame back.
pub proof fn lemma_rotate_180_twice<A>(s: Seq<A>)
    requires
        s.len() == 64,
    ensures
        rotated_180(rotated_180(s)) == s,
{
    let once = rotated_180(s);
    assert forall|k: int| 0 <= k < 64 implies rotated_180(once)[k] == s[k] by {
        let m: int = cell_index(7 - k % 8, 7 - k / 8);
        lemma_cell_index_parts(7 - k % 8, 7 - k / 8);
        assert(rotated_180(once)[k] == once[m]);
        assert(once[m] == s[cell_index(7 - m % 8, 7 - m / 8)]);
    }
    assert(rotated_180(once) =~= s);
}

/// Four quarter turns clockwise give the frame back.
pub proof fn lemma_rotate_90_four_times<A>(s: Seq<A>)
    requires
        s.len() == 64,
    ensures
        rotated_90(rotated_90(rotated_90(rotated_90(s)))) == s,
{
    lemma_rotate_90_twice(s);
    lemma_rotate_90_twice(rotated_180(s));
    lemma_rotate_180_twice(s);
}

/// A quarter turn counter-clockwise is a half turn followed by a quarter
/// turn clockwise.
pub proof fn lemma_rotate_270_is_180_then_90<A>(s: Seq<A>)
    requires
        s.len() == 64,
    ensures
        rotated_270(s) == rotated_90(rotated_180(s)),
{
    let half = rotated_180(s);
    assert forall|k: int| 0 <= k < 64 implies rotated_90(half)[k] == rotated_270(s)[k] by {
        let m: int = cell_index(k / 8, 7 - k % 8);
        lemma_cell_index_parts(k / 8, 7 - k % 8);
        assert(rotated_90(half)[k] == half[m]);
        assert(half[m] == s[cell_index(7 - m % 8, 7 - m / 8)]);
    }
    assert(rotated_270(s) =~= rotated_90(half));
}

/// The two quarter turns undo each other.
pub proof fn lemma_rotate_270_inverts_90<A>(s: Seq<A>)
    requires
        s.len() == 64,
    ensures
        rotated_270(rotated_90(s)) == s,
        rotated_90(rotated_270(s)) == s,
{
    let right = rotated_90(s);
    assert forall|k: int| 0 <= k < 64 implies rotated_270(right)[k] == s[k] by {
        let m: int = cell_index(7 - k / 8, k % 8);
        lemma_cell_index_parts(7 - k / 8, k % 8);
        assert(rotated_270(right)[k] == right[m]);
        assert(right[m] == s[cell_index(m / 8, 7 - m % 8)]);
    }
    assert(rotated_270(right) =~= s);
    let left = rotated_270(s);
    assert forall|k: int| 0 <= k < 64 implies rotated_90(left)[k] == s[k] by {
        let m: int = cell_index(k / 8, 7 - k % 8);
        lemma_cell_index_parts(k / 8, 7 - k % 8);
        assert(rotated_90(left)[k] == left[m]);
        assert(left[m] == s[cell_index(7 - m / 8, m % 8)]);
    }
    assert(rotated_90(left) =~= s);
}

} // verus!
