use vstd::prelude::*;

use crate::grid::{opposite_spec, Direction};

verus! {

/// A key event as the game reads it.
#[derive(Clone, Copy, Debug, PartialEq, Eq, Structural)]
pub enum Key {
    /// A key that asks for a heading (arrow keys or W/A/S/D).
    Turn(Direction),
    /// A key that ends the game (Q or Escape).
    Quit,
    /// Any other key.
    Other,
}

/// The heading after asking for `requested` while heading `current`:
/// a request for the exact reverse is dropped.
pub open spec fn turn_spec(current: Direction, requested: Direction) -> Direction {
    if requested == opposite_spec(current) {
        current
    } else {
        requested
    }
}

/// Heading and quit flag after the keys `keys`, read in order, starting from heading `d`.
/// After a quit key the remaining keys have no effect.
pub open spec fn drain_spec(d: Direction, keys: Seq<Key>) -> (Direction, bool)
    decreases keys.len(),
{
    if keys.len() == 0 {
        (d, false)
    } else {
        let prev = drain_spec(d, keys.drop_last());
        if prev.1 {
            prev
        } else {
            match keys.last() {
                Key::Turn(r) => (turn_spec(prev.0, r), false),
                Key::Quit => (prev.0, true),
                Key::Other => prev,
            }
        }
    }
}

/// The heading after a request for `requested`; a reversal is ignored.
pub fn turn(current: Direction, requested: Direction) -> (r: Direction)
    ensures
        r == turn_spec(current, requested),
{
    if requested == current.opposite() {
        current
    } else {
        requested
    }
}

/// Reads `keys` in arrival order from heading `d`: each accepted turn overwrites the
/// previous one, and a quit key stops the reading. Returns the heading and whether
/// a quit key was seen.
pub fn drain_keys(d: Direction, keys: &Vec<Key>) -> (r: (Direction, bool))
    ensures
        r == drain_spec(d, keys@),
{
    let mut dir = d;
    let mut quit = false;
    let mut i: usize = 0;
    while i < keys.len()
        invariant
            i <= keys@.len(),
            (dir, quit) == drain_spec(d, keys@.subrange(0, i as int)),
        decreases keys@.len() - i,
    {
        proof {
            assert(keys@.subrange(0, i + 1).drop_last() =~= keys@.subrange(0, i as int));
        }
        if !quit {
            match keys[i] {
                Key::Turn(r) => {
                    dir = turn(dir, r);
                },
                Key::Quit => {
                    quit = true;
                },
                Key::Other => {},
            }
        }
        i = i + 1;
    }
    assert(keys@.subrange(0, keys@.len() as int) =~= keys@);
    (dir, quit)
}

/// With no key events the heading stays as it was and the game goes on.
pub proof fn lemma_no_keys_keep_direction(d: Direction)
    ensures
        drain_spec(d, Seq::empty()) == (d, false),
{
}

/// A request for the reverse of the current heading is ignored; any other request is taken.
pub proof fn lemma_reversal_rejected(current: Direction, requested: Direction)
    ensures
        requested == opposite_spec(current) ==> turn_spec(current, requested) == current,
        requested != opposite_spec(current) ==> turn_spec(current, requested) == requested,
        drain_spec(current, seq![Key::Turn(opposite_spec(current))]) == (current, false),
{
    let keys = seq![Key::Turn(opposite_spec(current))];
    assert(keys.drop_last() =~= Seq::<Key>::empty());
    assert(drain_spec(current, keys.drop_last()) == (current, false));
    assert(keys.last() == Key::Turn(opposite_spec(current)));
}

} // verus!
