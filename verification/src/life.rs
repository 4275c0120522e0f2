//! Conway's game of life on the 8x8 torus, slowed down to two generations
//! in every 24 ticks.

use vstd::prelude::*;
use crate::animation::{after, Animation};
use crate::pixel::{dark, lit, on_grid, Pixel, NUM_PIXELS};
use crate::sip::{sip_digest, sip_finish, sip_keys, sip_new, sip_write, sip_written};

verus! {

/// The state of the automaton: `cells[x][y]` says whether the cell in
/// column `x` and row `y` is alive, `tick` counts the ticks of the current
/// cycle.
#[verifier::ext_equal]
pub struct LifeState {
    pub cells: Seq<Seq<bool>>,
    pub tick: nat,
}

impl LifeState {
    /// Whether the board is 8x8 and the tick lies within the cycle. Every
    /// state of a `Life` is valid.
    pub open spec fn valid(self) -> bool {
        is_board(self.cells) && self.tick < 24
    }
}

/// Whether `cells` has eight columns of eight cells.
pub open spec fn is_board(cells: Seq<Seq<bool>>) -> bool {
    cells.len() == 8 && forall|x: int| 0 <= x < 8 ==> (#[trigger] cells[x]).len() == 8
}

/// Whether the cell at `(x, y)` is alive, with both coordinates taken around
/// the torus.
pub open spec fn alive(cells: Seq<Seq<bool>>, x: int, y: int) -> bool {
    cells[x % 8][y % 8]
}

/// 1 for a live cell, 0 for a dead one.
pub open spec fn population(cells: Seq<Seq<bool>>, x: int, y: int) -> nat {
    if alive(cells, x, y) {
        1
    } else {
        0
    }
}

/// How many of the eight cells around `(x, y)` are alive.
pub open spec fn live_neighbors(cells: Seq<Seq<bool>>, x: int, y: int) -> nat {
    population(cells, x - 1, y - 1) + population(cells, x - 1, y)
        + population(cells, x - 1, y + 1) + population(cells, x, y - 1)
        + population(cells, x, y + 1) + population(cells, x + 1, y - 1)
        + population(cells, x + 1, y) + population(cells, x + 1, y + 1)
}

/// Whether the cell at `(x, y)` is alive in the next generation: a live
/// cell stays with two or three live neighbours, a dead one is born with
/// three.
pub open spec fn alive_next(cells: Seq<Seq<bool>>, x: int, y: int) -> bool {
    (alive(cells, x, y) && live_neighbors(cells, x, y) == 2) || live_neighbors(cells, x, y) == 3
}

/// The next generation of a board.
pub open spec fn evolved(cells: Seq<Seq<bool>>) -> Seq<Seq<bool>> {
    Seq::new(8, |x: int| Seq::new(8, |y: int| alive_next(cells, x, y)))
}

/// The board that 64 hash values give: the cell at `(x, y)` is alive when
/// the value at position `8 * x + y` is even.
pub open spec fn board_of(digests: Seq<u64>) -> Seq<Seq<bool>> {
    Seq::new(8, |x: int| Seq::new(8, |y: int| digests[8 * x + y] % 2 == 0))
}

/// The bytes that are written into the hasher for the cell index `k`, which
/// is below 64: the index as a 64-bit number, lowest byte first. The width
/// and the byte order are fixed, so that a board does not depend on the
/// machine.
pub open spec fn index_bytes(k: int) -> Seq<u8> {
    seq![k as u8, 0u8, 0u8, 0u8, 0u8, 0u8, 0u8, 0u8]
}

/// The writes that went into the hasher once the first `n` cell indices are
/// in: one write for each index, in rising order.
pub open spec fn index_writes(n: nat) -> Seq<Seq<u8>> {
    Seq::new(n, |k: int| index_bytes(k))
}

/// The 64 hash values that seed a board: the value at position `k` is the
/// hash, under the two keys, of the cell indices 0 to `k`.
pub open spec fn seed_digests(key1: u64, key2: u64) -> Seq<u64> {
    Seq::new(64, |k: int| sip_digest(key1, key2, index_writes((k + 1) as nat)))
}

/// The neighbours of `(x, y)` are taken in nine steps, column by column;
/// this is what step `p` adds to the count: nothing for the cell itself
/// (step 4), else 1 for a live neighbour.
spec fn neighbor_term(cells: Seq<Seq<bool>>, x: int, y: int, p: nat) -> nat {
    if p == 4 {
        0
    } else {
        population(cells, x + p / 3 - 1, y + p % 3 - 1)
    }
}

/// The live neighbours counted in the first `k` of the nine steps.
#[verifier::opaque]
spec fn neighbors_before(cells: Seq<Seq<bool>>, x: int, y: int, k: nat) -> nat
    decreases k,
{
    if k == 0 {
        0
    } else {
        neighbors_before(cells, x, y, (k - 1) as nat) + neighbor_term(cells, x, y, (k - 1) as nat)
    }
}

proof fn lemma_neighbors_before_none(cells: Seq<Seq<bool>>, x: int, y: int)
    ensures
        neighbors_before(cells, x, y, 0) == 0,
{
    reveal_with_fuel(neighbors_before, 1);
}

proof fn lemma_neighbors_before_step(cells: Seq<Seq<bool>>, x: int, y: int, k: nat)
    ensures
        neighbors_before(cells, x, y, k + 1)
            == neighbors_before(cells, x, y, k) + neighbor_term(cells, x, y, k),
        neighbor_term(cells, x, y, k) <= 1,
{
    reveal_with_fuel(neighbors_before, 1);
}

proof fn lemma_neighbors_before_all(cells: Seq<Seq<bool>>, x: int, y: int)
    ensures
        neighbors_before(cells, x, y, 9) == live_neighbors(cells, x, y),
{
    lemma_neighbors_before_none(cells, x, y);
    lemma_neighbors_before_step(cells, x, y, 0);
    lemma_neighbors_before_step(cells, x, y, 1);
    lemma_neighbors_before_step(cells, x, y, 2);
    lemma_neighbors_before_step(cells, x, y, 3);
    lemma_neighbors_before_step(cells, x, y, 4);
    lemma_neighbors_before_step(cells, x, y, 5);
    lemma_neighbors_before_step(cells, x, y, 6);
    lemma_neighbors_before_step(cells, x, y, 7);
    lemma_neighbors_before_step(cells, x, y, 8);
}

/// Step `3 * dx + dy` looks at the cell that lies `dx - 1` columns and
/// `dy - 1` rows away, which the code finds by adding 7 and wrapping.
proof fn lemma_neighbor_term_at(cells: Seq<Seq<bool>>, x: int, y: int, dx: int, dy: int)
    requires
        0 <= x,
        0 <= y,
        0 <= dx < 3,
        0 <= dy < 3,
    ensures
        (3 * dx + dy == 4) <==> (dx == 1 && dy == 1),
        (dx == 1 && dy == 1) ==> neighbor_term(cells, x, y, (3 * dx + dy) as nat) == 0,
        !(dx == 1 && dy == 1) ==> neighbor_term(cells, x, y, (3 * dx + dy) as nat)
            == population(cells, (x + dx + 7) % 8, (y + dy + 7) % 8),
{
    let p: nat = (3 * dx + dy) as nat;
    assert(p / 3 == dx && p % 3 == dy);
    assert((x + dx + 7) % 8 == (x + dx - 1) % 8);
    assert((y + dy + 7) % 8 == (y + dy - 1) % 8);
}

/// The game of life.
pub struct Life {
    data: [[bool; 8]; 8],
    increment_counter: usize,
}

impl View for Life {
    type V = LifeState;

    closed spec fn view(&self) -> LifeState {
        LifeState {
            cells: Seq::new(8, |x: int| Seq::new(8, |y: int| self.data@[x]@[y])),
            tick: self.increment_counter as nat,
        }
    }
}

impl Life {
    #[verifier::type_invariant]
    spec fn counter_in_cycle(self) -> bool {
        self.increment_counter < 24
    }

    /// The state that a new automaton has under the two keys: the seeded
    /// board at the start of a cycle.
    pub open spec fn seeded(key1: u64, key2: u64) -> LifeState {
        LifeState { cells: board_of(seed_digests(key1, key2)), tick: 0 }
    }

    /// A new automaton whose board is seeded by a keyed hash of the cell
    /// indices.
    pub fn new(key1: u64, key2: u64) -> (life: Life)
        ensures
            life@ == Self::seeded(key1, key2),
            life@.valid(),
    {
        let mut digests = [0u64; NUM_PIXELS];
        let mut hasher = sip_new(key1, key2);
        for k in 0..NUM_PIXELS
            invariant
                sip_keys(hasher) == (key1, key2),
                sip_written(hasher) == index_writes(k as nat),
                forall|m: int|
                    0 <= m < k ==> #[trigger] digests@[m] == seed_digests(key1, key2)[m],
        {
            let bytes: [u8; 8] = [k as u8, 0, 0, 0, 0, 0, 0, 0];
            assert(bytes@ =~= index_bytes(k as int));
            sip_write(&mut hasher, &bytes);
            assert(sip_written(hasher) =~= index_writes((k + 1) as nat));
            digests[k] = sip_finish(&hasher);
        }
        assert(digests@ =~= seed_digests(key1, key2));
        Self::from_digests(&digests)
    }

    /// The automaton at the start of a cycle whose board is read off 64
    /// hash values: an even value makes a live cell.
    pub fn from_digests(digests: &[u64; NUM_PIXELS]) -> (life: Life)
        ensures
            life@ == (LifeState { cells: board_of(digests@), tick: 0 }),
            life@.valid(),
    {
        let mut data = [[false; 8]; 8];
        for i in 0..8usize
            invariant
                forall|x: int, y: int|
                    0 <= x < i && 0 <= y < 8 ==> #[trigger] data@[x]@[y] == (digests@[8 * x + y] % 2
                        == 0),
        {
            for j in 0..8usize
                invariant
                    0 <= i < 8,
                    forall|x: int, y: int|
                        0 <= x < i && 0 <= y < 8 ==> #[trigger] data@[x]@[y] == (digests@[8 * x
                            + y] % 2 == 0),
                    forall|y: int|
                        0 <= y < j ==> #[trigger] data@[i as int]@[y] == (digests@[8 * i + y] % 2
                            == 0),
            {
                data[i][j] = digests[j + 8 * i] % 2 == 0;
            }
        }
        let life = Life { data, increment_counter: 0 };
        assert(life@.cells =~~= board_of(digests@));
        life
    }

    /// How many of the eight cells around `(x, y)` are alive, with
    /// coordinates taken around the torus.
    pub fn count_neighbors(&self, x: usize, y: usize) -> (count: u8)
        requires
            x + 9 <= usize::MAX,
            y + 9 <= usize::MAX,
        ensures
            count == live_neighbors(self@.cells, x as int, y as int),
    {
        let ghost cells = self@.cells;
        let mut count: u8 = 0;
        proof {
            lemma_neighbors_before_none(cells, x as int, y as int);
        }
        for dx in 0..3usize
            invariant
                x + 9 <= usize::MAX,
                y + 9 <= usize::MAX,
                cells == self@.cells,
                count <= 3 * dx,
                count == neighbors_before(cells, x as int, y as int, (3 * dx) as nat),
        {
            for dy in 0..3usize
                invariant
                    0 <= dx < 3,
                    x + 9 <= usize::MAX,
                    y + 9 <= usize::MAX,
                    cells == self@.cells,
                    count <= 3 * dx + dy,
                    count == neighbors_before(cells, x as int, y as int, (3 * dx + dy) as nat),
            {
                proof {
                    lemma_neighbors_before_step(cells, x as int, y as int, (3 * dx + dy) as nat);
                    lemma_neighbor_term_at(cells, x as int, y as int, dx as int, dy as int);
                }
                if !(dx == 1 && dy == 1) {
                    let nx: usize = (x + dx + 7) % 8;
                    let ny: usize = (y + dy + 7) % 8;
                    assert(alive(cells, nx as int, ny as int) == self.data@[nx as int]@[ny as int]);
                    if self.data[nx][ny] {
                        count += 1;
                    }
                }
            }
        }
        proof {
            lemma_neighbors_before_all(cells, x as int, y as int);
        }
        count
    }
}

impl Default for Life {
    fn default() -> (life: Life)
        ensures
            life@ == Life::seeded(0, 0),
            life@.valid(),
    {
        Life::new(0, 0)
    }
}

impl Animation for Life {
    open spec fn playable(v: LifeState) -> bool {
        true
    }

    open spec fn advanced(v: LifeState) -> LifeState {
        let tick: nat = (v.tick + 1) % 24;
        LifeState {
            cells: if tick == 0 || tick == 12 {
                evolved(v.cells)
            } else {
                v.cells
            },
            tick,
        }
    }

    open spec fn rendered(v: LifeState) -> Seq<Pixel> {
        Seq::new(64, |i: int| if v.cells[i % 8][i / 8] { lit() } else { dark() })
    }

    fn next(&mut self)
        ensures
            final(self)@.valid(),
    {
        proof {
            use_type_invariant(&*self);
        }
        self.increment_counter = (self.increment_counter + 1) % 24;
        if !(self.increment_counter == 0 || self.increment_counter == 12) {
            assert(self@.cells =~~= old(self)@.cells);
            return;
        }
        let ghost cells = self@.cells;
        let mut new_data = [[false; 8]; 8];
        for i in 0..8usize
            invariant
                cells == self@.cells,
                forall|x: int, y: int|
                    0 <= x < i && 0 <= y < 8 ==> #[trigger] new_data@[x]@[y] == alive_next(
                        cells,
                        x,
                        y,
                    ),
        {
            for j in 0..8usize
                invariant
                    0 <= i < 8,
                    cells == self@.cells,
                    forall|x: int, y: int|
                        0 <= x < i && 0 <= y < 8 ==> #[trigger] new_data@[x]@[y] == alive_next(
                            cells,
                            x,
                            y,
                        ),
                    forall|y: int|
                        0 <= y < j ==> #[trigger] new_data@[i as int]@[y] == alive_next(
                            cells,
                            i as int,
                            y,
                        ),
            {
                let neighbors: u8 = self.count_neighbors(i, j);
                assert(self.data@[i as int]@[j as int] == alive(cells, i as int, j as int));
                new_data[i][j] = (self.data[i][j] && neighbors == 2) || neighbors == 3;
            }
        }
        self.data = new_data;
        assert(self@.cells =~~= evolved(cells));
    }

    fn to_list(&self) -> (frame: [Pixel; NUM_PIXELS])
        ensures
            self@.valid(),
    {
        proof {
            use_type_invariant(self);
        }
        let mut data = [Pixel::black(); NUM_PIXELS];
        for i in 0..NUM_PIXELS
            invariant
                forall|k: int| 0 <= k < i ==> #[trigger] data@[k] == Self::rendered(self@)[k],
        {
            let x: usize = i % 8;
            let y: usize = i / 8;
            data[i] = if self.data[x][y] {
                Pixel::white()
            } else {
                Pixel::black()
            };
        }
        assert(data@ =~= Self::rendered(self@));
        data
    }
}

/// Birth: a dead cell with exactly three live neighbours is alive in the
/// next generation.
pub proof fn lemma_birth(cells: Seq<Seq<bool>>, x: int, y: int)
    requires
        is_board(cells),
        on_grid(x, y),
        !cells[x][y],
        live_neighbors(cells, x, y) == 3,
    ensures
        evolved(cells)[x][y],
{
}

/// Underpopulation: a live cell with fewer than two live neighbours is
/// dead in the next generation.
pub proof fn lemma_underpopulation(cells: Seq<Seq<bool>>, x: int, y: int)
    requires
        is_board(cells),
        on_grid(x, y),
        cells[x][y],
        live_neighbors(cells, x, y) < 2,
    ensures
        !evolved(cells)[x][y],
{
}

/// The rule in full: a cell is alive in the next generation exactly when
/// it has three live neighbours, or is alive and has two.
pub proof fn lemma_generation_rule(cells: Seq<Seq<bool>>, x: int, y: int)
    requires
        is_board(cells),
        on_grid(x, y),
    ensures
        evolved(cells)[x][y] <==> live_neighbors(cells, x, y) == 3 || (cells[x][y]
            && live_neighbors(cells, x, y) == 2),
        is_board(evolved(cells)),
{
}

/// Between two generations the board stands still: ticks that reach
/// neither the middle nor the end of the cycle only move the tick count.
pub proof fn lemma_life_holds_between_generations(v: LifeState, k: nat)
    requires
        v.tick + k < 12 || (12 <= v.tick && v.tick + k < 24),
    ensures
        after::<Life>(v, k) == (LifeState { cells: v.cells, tick: v.tick + k }),
    decreases k,
{
    if k > 0 {
        lemma_life_holds_between_generations(v, (k - 1) as nat);
    }
}

/// A generation passes in every 12 ticks: 12 ticks from the start or from
/// the middle of a cycle apply the rule to the board exactly once.
pub proof fn lemma_life_generation_every_12(v: LifeState)
    requires
        v.tick == 0 || v.tick == 12,
    ensures
        after::<Life>(v, 12) == (LifeState { cells: evolved(v.cells), tick: (v.tick + 12) % 24 }),
{
    lemma_life_holds_between_generations(v, 11);
}

/// Two automata made with the same keys start from the same board, and
/// after the same number of ticks they are in the same state and show the
/// same frame.
pub proof fn lemma_same_keys_same_run(a: Life, b: Life, key1: u64, key2: u64, n: nat)
    requires
        a@ == Life::seeded(key1, key2),
        b@ == Life::seeded(key1, key2),
    ensures
        a@.cells == b@.cells,
        after::<Life>(a@, n) == after::<Life>(b@, n),
        Life::rendered(after::<Life>(a@, n)) == Life::rendered(after::<Life>(b@, n)),
{
}

/// Every tick keeps a valid state valid.
pub proof fn lemma_life_advanced_valid(v: LifeState)
    requires
        v.valid(),
    ensures
        Life::advanced(v).valid(),
{
}

} // verus!
