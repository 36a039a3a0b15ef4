use std::collections::VecDeque;
use vstd::prelude::*;

use crate::grid::{in_interior, is_wall, Cell, HEIGHT, WIDTH};

verus! {

/// Length of a freshly started snake.
pub const INITIAL_LEN: usize = 3;

/// No cell appears twice in `s`.
pub open spec fn distinct(s: Seq<Cell>) -> bool {
    forall|i: int, j: int| 0 <= i < j < s.len() ==> s[i] != s[j]
}

/// Every cell of `s` lies in the interior.
pub open spec fn all_interior(s: Seq<Cell>) -> bool {
    forall|i: int| 0 <= i < s.len() ==> in_interior(#[trigger] s[i])
}

/// A body that a running game may hold: non-empty, inside the walls, without repeats.
pub open spec fn valid_body(s: Seq<Cell>) -> bool {
    &&& s.len() >= 1
    &&& distinct(s)
    &&& all_interior(s)
}

/// The starting body: three cells in the middle row, head at the centre, tail to the left.
pub open spec fn initial_body() -> Seq<Cell> {
    seq![
        (WIDTH / 2, HEIGHT / 2),
        ((WIDTH / 2 - 1) as u16, HEIGHT / 2),
        ((WIDTH / 2 - 2) as u16, HEIGHT / 2),
    ]
}

/// The body after moving the head to `h`: `h` in front, the last cell dropped unless `grew`.
pub open spec fn advanced(s: Seq<Cell>, h: Cell, grew: bool) -> Seq<Cell> {
    if grew {
        seq![h] + s
    } else {
        seq![h] + s.drop_last()
    }
}

/// Putting a free interior cell in front of a valid body, with or without dropping
/// the last cell, gives a valid body again: no cell is ever held twice.
pub proof fn lemma_advance_valid(s: Seq<Cell>, h: Cell, grew: bool)
    requires
        valid_body(s),
        in_interior(h),
        !s.contains(h),
    ensures
        valid_body(advanced(s, h, grew)),
        advanced(s, h, grew).len() == s.len() + if grew { 1int } else { 0int },
{
    let n = advanced(s, h, grew);
    assert forall|i: int, j: int| 0 <= i < j < n.len() implies n[i] != n[j] by {
        if i == 0 {
            assert(n[j] == s[j - 1]);
        } else {
            assert(n[i] == s[i - 1] && n[j] == s[j - 1]);
        }
    }
    assert forall|i: int| 0 <= i < n.len() implies in_interior(#[trigger] n[i]) by {
        if i > 0 {
            assert(n[i] == s[i - 1]);
        }
    }
}

/// The snake's segments, head first.
pub struct Snake {
    body: VecDeque<Cell>,
}

impl View for Snake {
    type V = Seq<Cell>;

    closed spec fn view(&self) -> Seq<Cell> {
        self.body@
    }
}

impl Snake {
    /// The three-segment snake a game starts with.
    pub fn initial() -> (r: Snake)
        ensures
            r@ == initial_body(),
            valid_body(r@),
    {
        let mut body: VecDeque<Cell> = VecDeque::new();
        let x = WIDTH / 2;
        let y = HEIGHT / 2;
        body.push_back((x, y));
        body.push_back((x - 1, y));
        body.push_back((x - 2, y));
        let r = Snake { body };
        assert(r@ =~= initial_body());
        r
    }

    /// A snake with the given segments, head first.
    pub fn from_cells(cells: &Vec<Cell>) -> (r: Snake)
        ensures
            r@ == cells@,
    {
        let mut body: VecDeque<Cell> = VecDeque::new();
        let mut i: usize = 0;
        while i < cells.len()
            invariant
                i <= cells@.len(),
                body@ == cells@.subrange(0, i as int),
            decreases cells@.len() - i,
        {
            body.push_back(cells[i]);
            i = i + 1;
            assert(body@ =~= cells@.subrange(0, i as int));
        }
        assert(body@ =~= cells@);
        Snake { body }
    }

    /// Whether the body is non-empty, inside the walls and free of repeats.
    pub fn is_valid(&self) -> (r: bool)
        ensures
            r == valid_body(self@),
    {
        let n = self.body.len();
        if n == 0 {
            return false;
        }
        let mut i: usize = 0;
        while i < n
            invariant
                n == self@.len(),
                i <= n,
                forall|a: int| 0 <= a < i ==> in_interior(#[trigger] self@[a]),
                forall|a: int, b: int| 0 <= a < b < n && a < i ==> self@[a] != self@[b],
            decreases n - i,
        {
            let c = self.body[i];
            if is_wall(c) {
                return false;
            }
            let mut j: usize = i + 1;
            while j < n
                invariant
                    n == self@.len(),
                    i < j <= n,
                    c == self@[i as int],
                    forall|b: int| i < b < j ==> self@[i as int] != self@[b],
                decreases n - j,
            {
                let d = self.body[j];
                if c.0 == d.0 && c.1 == d.1 {
                    return false;
                }
                j = j + 1;
            }
            i = i + 1;
        }
        true
    }

    /// Number of segments.
    pub fn len(&self) -> (r: usize)
        ensures
            r == self@.len(),
    {
        self.body.len()
    }

    /// The front segment.
    pub fn head(&self) -> (r: Cell)
        requires
            self@.len() >= 1,
        ensures
            r == self@[0],
    {
        self.body[0]
    }

    /// Whether some segment is at `c`.
    pub fn occupies(&self, c: Cell) -> (r: bool)
        ensures
            r == self@.contains(c),
    {
        let mut i: usize = 0;
        while i < self.body.len()
            invariant
                i <= self@.len(),
                forall|j: int| 0 <= j < i ==> self@[j] != c,
            decreases self@.len() - i,
        {
            let s = self.body[i];
            if s.0 == c.0 && s.1 == c.1 {
                return true;
            }
            i = i + 1;
        }
        false
    }

    /// The segments, head first.
    pub fn cells(&self) -> (r: Vec<Cell>)
        ensures
            r@ == self@,
    {
        let mut out: Vec<Cell> = Vec::new();
        let mut i: usize = 0;
        while i < self.body.len()
            invariant
                i <= self@.len(),
                out@ == self@.subrange(0, i as int),
            decreases self@.len() - i,
        {
            out.push(self.body[i]);
            i = i + 1;
            assert(out@ =~= self@.subrange(0, i as int));
        }
        assert(out@ =~= self@);
        out
    }

    /// Puts `h` in front; drops the last segment unless `grew`.
    /// Bounds and collisions are the caller's to check beforehand; a head that is
    /// inside the walls and not already occupied keeps a valid body valid.
    pub fn advance(&mut self, h: Cell, grew: bool)
        requires
            old(self)@.len() >= 1,
        ensures
            final(self)@ == advanced(old(self)@, h, grew),
            final(self)@.len() == old(self)@.len() + if grew { 1int } else { 0int },
            valid_body(old(self)@) && in_interior(h) && !old(self)@.contains(h) ==> valid_body(
                final(self)@,
            ),
    {
        self.body.push_front(h);
        if !grew {
            self.body.pop_back();
        }
        proof {
            assert(final(self)@ =~= advanced(old(self)@, h, grew));
            if valid_body(old(self)@) && in_interior(h) && !old(self)@.contains(h) {
                lemma_advance_valid(old(self)@, h, grew);
            }
        }
    }
}

} // verus!
