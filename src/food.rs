use rand::rngs::ThreadRng;
use rand::Rng;
use vstd::prelude::*;

use crate::grid::{in_interior, Cell, HEIGHT, WIDTH};
use crate::snake::Snake;

verus! {

/// Number of interior cells, `WIDTH * HEIGHT` (checked in `lemma_cell_at_interior`).
pub const CELLS: usize = 600;

/// The `i`-th interior cell in row-major order, from `(1, 1)`.
pub open spec fn cell_at(i: int) -> Cell {
    ((i % (WIDTH as int) + 1) as u16, (i / (WIDTH as int) + 1) as u16)
}

/// The position of interior cell `c` in row-major order.
pub open spec fn index_of(c: Cell) -> int {
    (c.1 - 1) * (WIDTH as int) + (c.0 - 1)
}

/// The cells among the first `k` interior cells that `s` leaves free, in row-major order.
pub open spec fn free_upto(s: Seq<Cell>, k: nat) -> Seq<Cell>
    decreases k,
{
    if k == 0 {
        Seq::empty()
    } else {
        let rest = free_upto(s, (k - 1) as nat);
        let c = cell_at(k - 1);
        if s.contains(c) {
            rest
        } else {
            rest.push(c)
        }
    }
}

/// Every interior cell not covered by `s`, in row-major order.
pub open spec fn free_cells_spec(s: Seq<Cell>) -> Seq<Cell> {
    free_upto(s, CELLS as nat)
}

/// Every interior cell is covered by `s`.
pub open spec fn board_full(s: Seq<Cell>) -> bool {
    forall|c: Cell| in_interior(c) ==> s.contains(c)
}

proof fn lemma_cell_at_interior(i: int)
    requires
        0 <= i < CELLS,
    ensures
        CELLS == WIDTH * HEIGHT,
        in_interior(cell_at(i)),
        index_of(cell_at(i)) == i,
{
}

proof fn lemma_index_of(c: Cell)
    requires
        in_interior(c),
    ensures
        0 <= index_of(c) < CELLS,
        cell_at(index_of(c)) == c,
{
}

proof fn lemma_free_upto_sound(s: Seq<Cell>, k: nat)
    requires
        k <= CELLS,
    ensures
        forall|c: Cell| #[trigger]
            free_upto(s, k).contains(c) ==> in_interior(c) && !s.contains(c),
    decreases k,
{
    if k > 0 {
        lemma_free_upto_sound(s, (k - 1) as nat);
        lemma_cell_at_interior(k - 1);
        let rest = free_upto(s, (k - 1) as nat);
        let c = cell_at(k - 1);
        if !s.contains(c) {
            assert forall|d: Cell| #[trigger] rest.push(c).contains(d) implies rest.contains(d)
                || d == c by {
                let j = choose|j: int| 0 <= j < rest.push(c).len() && rest.push(c)[j] == d;
                if j < rest.len() {
                    assert(rest[j] == d);
                }
            }
        }
    }
}

proof fn lemma_free_upto_complete(s: Seq<Cell>, k: nat, i: int)
    requires
        k <= CELLS,
        0 <= i < k,
        !s.contains(cell_at(i)),
    ensures
        free_upto(s, k).contains(cell_at(i)),
    decreases k,
{
    let rest = free_upto(s, (k - 1) as nat);
    let c = cell_at(k - 1);
    if i == k - 1 {
        assert(rest.push(c)[rest.len() as int] == c);
    } else {
        lemma_free_upto_complete(s, (k - 1) as nat, i);
        if !s.contains(c) {
            let j = choose|j: int| 0 <= j < rest.len() && rest[j] == cell_at(i);
            assert(rest.push(c)[j] == cell_at(i));
        }
    }
}

/// A cell is listed as free exactly when it is inside the walls and not covered.
pub proof fn lemma_free_cells(s: Seq<Cell>, c: Cell)
    ensures
        free_cells_spec(s).contains(c) <==> in_interior(c) && !s.contains(c),
{
    lemma_free_upto_sound(s, CELLS as nat);
    if in_interior(c) && !s.contains(c) {
        lemma_index_of(c);
        lemma_free_upto_complete(s, CELLS as nat, index_of(c));
    }
}

/// No free cell is listed exactly when the body covers the whole interior.
pub proof fn lemma_no_free_cells(s: Seq<Cell>)
    ensures
        free_cells_spec(s).len() == 0 <==> board_full(s),
{
    let f = free_cells_spec(s);
    if f.len() == 0 {
        assert forall|c: Cell| in_interior(c) implies s.contains(c) by {
            lemma_free_cells(s, c);
        }
    } else {
        lemma_free_cells(s, f[0]);
        assert(f.contains(f[0]));
    }
}

/// The interior cells that `snake` leaves free, in row-major order.
pub fn free_cells(snake: &Snake) -> (r: Vec<Cell>)
    ensures
        r@ == free_cells_spec(snake@),
{
    let mut out: Vec<Cell> = Vec::new();
    let mut i: usize = 0;
    while i < CELLS
        invariant
            i <= CELLS,
            out@ == free_upto(snake@, i as nat),
        decreases CELLS - i,
    {
        let c: Cell = ((i % (WIDTH as usize) + 1) as u16, (i / (WIDTH as usize) + 1) as u16);
        assert(c == cell_at(i as int));
        if !snake.occupies(c) {
            out.push(c);
        }
        i = i + 1;
    }
    out
}

/// The free cell that `choice` selects: position `choice % n` among the `n` free cells,
/// or `None` when the snake covers the whole interior.
pub fn food_from_choice(snake: &Snake, choice: usize) -> (r: Option<Cell>)
    ensures
        r is None <==> board_full(snake@),
        r is None <==> free_cells_spec(snake@).len() == 0,
        r matches Some(c) ==> c == free_cells_spec(snake@)[choice as int % free_cells_spec(
            snake@,
        ).len() as int],
        r matches Some(c) ==> in_interior(c) && !snake@.contains(c),
{
    proof {
        lemma_no_free_cells(snake@);
    }
    let free = free_cells(snake);
    if free.len() == 0 {
        None
    } else {
        let c = free[choice % free.len()];
        proof {
            assert(free@.contains(c));
            lemma_free_cells(snake@, c);
        }
        Some(c)
    }
}

/// Relies on rand::thread_rng: a handle to the thread-local generator (nothing is known of its state).
pub assume_specification[ rand::thread_rng ]() -> ThreadRng;

#[verifier::external_type_specification]
#[verifier::external_body]
pub struct ExThreadRng(ThreadRng);

/// Relies on rand::Rng::gen_range on `0..n`: a value below `n` (it panics on an empty range,
/// which `requires` rules out).
#[verifier::external_body]
fn random_below(rng: &mut ThreadRng, n: usize) -> (r: usize)
    requires
        n > 0,
    ensures
        r < n,
{
    rng.gen_range(0..n)
}

/// Picks a uniformly random free cell for the food, or `None` when the snake covers
/// the whole interior. The search is bounded: it lists the free cells once.
pub fn spawn_food(snake: &Snake, rng: &mut ThreadRng) -> (r: Option<Cell>)
    ensures
        r is None <==> board_full(snake@),
        r matches Some(c) ==> free_cells_spec(snake@).contains(c),
        r matches Some(c) ==> in_interior(c) && !snake@.contains(c),
{
    proof {
        lemma_no_free_cells(snake@);
    }
    let n = free_cells(snake).len();
    if n == 0 {
        None
    } else {
        let i = random_below(rng, n);
        food_from_choice(snake, i)
    }
}

} // verus!
