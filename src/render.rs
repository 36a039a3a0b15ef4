use vstd::prelude::*;

use crate::game::{Game, GameState};
use crate::grid::{Cell, HEIGHT, WIDTH};

verus! {

/// Glyph of the food.
pub const FOOD_GLYPH: char = '●';

/// Glyph of the snake's head.
pub const HEAD_GLYPH: char = '◎';

/// Glyph of the other segments.
pub const BODY_GLYPH: char = 'o';

/// The decimal digit for `d < 10`.
pub open spec fn digit_spec(d: nat) -> char {
    if d == 0 {
        '0'
    } else if d == 1 {
        '1'
    } else if d == 2 {
        '2'
    } else if d == 3 {
        '3'
    } else if d == 4 {
        '4'
    } else if d == 5 {
        '5'
    } else if d == 6 {
        '6'
    } else if d == 7 {
        '7'
    } else if d == 8 {
        '8'
    } else {
        '9'
    }
}

/// `n` written in decimal, without leading zeros.
pub open spec fn decimal(n: nat) -> Seq<char>
    decreases n,
{
    if n < 10 {
        seq![digit_spec(n)]
    } else {
        decimal(n / 10).push(digit_spec(n % 10))
    }
}

/// What is drawn at `(x, y)`: the food, else the head, else a body segment, else blank.
pub open spec fn glyph(body: Seq<Cell>, food: Cell, x: u16, y: u16) -> char {
    if (x, y) == food {
        FOOD_GLYPH
    } else if body.len() > 0 && body[0] == (x, y) {
        HEAD_GLYPH
    } else if body.contains((x, y)) {
        BODY_GLYPH
    } else {
        ' '
    }
}

/// Escape sequence that puts the cursor at the top-left corner.
pub open spec fn home() -> Seq<char> {
    seq!['\x1B', '[', 'H']
}

/// Line end used in raw terminal mode.
pub open spec fn line_end() -> Seq<char> {
    seq!['\r', '\n']
}

/// The top or bottom border: `+`, `WIDTH` dashes, `+`.
pub open spec fn border_line() -> Seq<char> {
    seq!['+'] + Seq::new(WIDTH as nat, |i: int| '-') + seq!['+'] + line_end()
}

/// The first `k` glyphs of row `y`.
pub open spec fn row_cells(body: Seq<Cell>, food: Cell, y: u16, k: nat) -> Seq<char> {
    Seq::new(k, |i: int| glyph(body, food, (i + 1) as u16, y))
}

/// Interior row `y` between two side borders.
pub open spec fn row_line(body: Seq<Cell>, food: Cell, y: u16) -> Seq<char> {
    seq!['|'] + row_cells(body, food, y, WIDTH as nat) + seq!['|'] + line_end()
}

/// Interior rows `1..=k`, top first.
pub open spec fn rows_upto(body: Seq<Cell>, food: Cell, k: nat) -> Seq<char>
    decreases k,
{
    if k == 0 {
        Seq::empty()
    } else {
        rows_upto(body, food, (k - 1) as nat) + row_line(body, food, k as u16)
    }
}

/// The status line: the score and the controls.
pub open spec fn status_line(score: nat) -> Seq<char> {
    "Score: "@ + decimal(score) + "  (WASD / Arrows 控制, Q 退出)"@ + line_end()
}

/// The whole frame of a state: cursor home, border, rows, border, status line.
pub open spec fn frame_spec(g: GameState) -> Seq<char> {
    home() + border_line() + rows_upto(g.body, g.food, HEIGHT as nat) + border_line()
        + status_line(g.score)
}

/// The closing message with the final score.
pub open spec fn game_over_spec(score: nat) -> Seq<char> {
    "Game Over! Score: "@ + decimal(score) + ". 按任意键退出..."@
}

/// Relies on String::push: the character is appended at the end.
#[verifier::external_body]
fn push_char(s: &mut String, c: char)
    ensures
        final(s)@ == old(s)@.push(c),
{
    s.push(c)
}

fn digit(d: usize) -> (c: char)
    requires
        d < 10,
    ensures
        c == digit_spec(d as nat),
{
    if d == 0 {
        '0'
    } else if d == 1 {
        '1'
    } else if d == 2 {
        '2'
    } else if d == 3 {
        '3'
    } else if d == 4 {
        '4'
    } else if d == 5 {
        '5'
    } else if d == 6 {
        '6'
    } else if d == 7 {
        '7'
    } else if d == 8 {
        '8'
    } else {
        '9'
    }
}

fn push_decimal(s: &mut String, n: usize)
    ensures
        final(s)@ == old(s)@ + decimal(n as nat),
    decreases n,
{
    if n >= 10 {
        push_decimal(s, n / 10);
    }
    push_char(s, digit(n % 10));
    assert(final(s)@ =~= old(s)@ + decimal(n as nat));
}

fn push_line_end(s: &mut String)
    ensures
        final(s)@ == old(s)@ + line_end(),
{
    push_char(s, '\r');
    push_char(s, '\n');
    assert(final(s)@ =~= old(s)@ + line_end());
}

fn push_border(s: &mut String)
    ensures
        final(s)@ == old(s)@ + border_line(),
{
    let ghost start = s@;
    push_char(s, '+');
    let mut i: u16 = 0;
    while i < WIDTH
        invariant
            i <= WIDTH,
            s@ == start + seq!['+'] + Seq::new(i as nat, |k: int| '-'),
        decreases WIDTH - i,
    {
        push_char(s, '-');
        i = i + 1;
        assert(s@ =~= start + seq!['+'] + Seq::new(i as nat, |k: int| '-'));
    }
    push_char(s, '+');
    push_line_end(s);
    assert(s@ =~= start + border_line());
}

impl Game {
    /// The glyph at `(x, y)`.
    fn glyph_at(&self, x: u16, y: u16) -> (c: char)
        ensures
            c == glyph(self@.body, self@.food, x, y),
    {
        let food = self.food();
        let snake = self.snake();
        if x == food.0 && y == food.1 {
            FOOD_GLYPH
        } else if snake.len() > 0 && snake.head().0 == x && snake.head().1 == y {
            HEAD_GLYPH
        } else if snake.occupies((x, y)) {
            BODY_GLYPH
        } else {
            ' '
        }
    }

    fn push_row(&self, s: &mut String, y: u16)
        ensures
            final(s)@ == old(s)@ + row_line(self@.body, self@.food, y),
    {
        let ghost start = s@;
        let ghost body = self@.body;
        let ghost food = self@.food;
        push_char(s, '|');
        let mut x: u16 = 1;
        while x <= WIDTH
            invariant
                1 <= x <= WIDTH + 1,
                body == self@.body,
                food == self@.food,
                s@ == start + seq!['|'] + row_cells(body, food, y, (x - 1) as nat),
            decreases WIDTH + 1 - x,
        {
            let c = self.glyph_at(x, y);
            push_char(s, c);
            x = x + 1;
            assert(s@ =~= start + seq!['|'] + row_cells(body, food, y, (x - 1) as nat));
        }
        push_char(s, '|');
        push_line_end(s);
        assert(s@ =~= start + row_line(body, food, y));
    }

    /// The full text frame of the current state: cursor home, top border, `HEIGHT`
    /// rows between side borders, bottom border, and the status line with the score.
    pub fn render(&self) -> (r: String)
        ensures
            r@ == frame_spec(self@),
    {
        let mut s = String::new();
        push_char(&mut s, '\x1B');
        push_char(&mut s, '[');
        push_char(&mut s, 'H');
        assert(s@ =~= home());
        push_border(&mut s);
        let ghost top = s@;
        let mut y: u16 = 1;
        while y <= HEIGHT
            invariant
                1 <= y <= HEIGHT + 1,
                s@ == top + rows_upto(self@.body, self@.food, (y - 1) as nat),
            decreases HEIGHT + 1 - y,
        {
            self.push_row(&mut s, y);
            y = y + 1;
            assert(s@ =~= top + rows_upto(self@.body, self@.food, (y - 1) as nat));
        }
        push_border(&mut s);
        s.append("Score: ");
        push_decimal(&mut s, self.score());
        s.append("  (WASD / Arrows 控制, Q 退出)");
        push_line_end(&mut s);
        assert(s@ =~= frame_spec(self@));
        s
    }
}

/// The closing message with the final score.
pub fn game_over_text(score: usize) -> (r: String)
    ensures
        r@ == game_over_spec(score as nat),
{
    let mut s = String::new();
    s.append("Game Over! Score: ");
    push_decimal(&mut s, score);
    s.append(". 按任意键退出...");
    assert(s@ =~= game_over_spec(score as nat));
    s
}

/// A frame depends on the body, the food and the score alone: drawing the same
/// state twice gives the same text.
pub proof fn lemma_render_deterministic(a: GameState, b: GameState)
    requires
        a.body == b.body,
        a.food == b.food,
        a.score == b.score,
    ensures
        frame_spec(a) == frame_spec(b),
{
}

} // verus!
