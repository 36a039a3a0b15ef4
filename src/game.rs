use rand::rngs::ThreadRng;
use vstd::prelude::*;

use crate::food::{board_full, food_from_choice, free_cells_spec, spawn_food};
use crate::grid::{
    in_interior, is_wall, is_wall_spec, offset, offset_spec, Cell, Direction, TICK_MS,
};
use crate::input::{drain_keys, drain_spec, Key};
use crate::snake::{advanced, initial_body, lemma_advance_valid, valid_body, Snake};

verus! {

/// Whether the game still accepts moves.
#[derive(Clone, Copy, Debug, PartialEq, Eq, Structural)]
pub enum Phase {
    Running,
    GameOver,
}

/// What one tick did.
#[derive(Clone, Copy, Debug, PartialEq, Eq, Structural)]
pub enum Outcome {
    /// The game was already over; nothing changed.
    Idle,
    /// The snake moved one cell and kept its length.
    Moved,
    /// The snake ate the food, grew by one, and new food was placed.
    Ate,
    /// The next cell was a wall; the game is over.
    HitWall,
    /// The next cell was part of the snake; the game is over.
    HitSelf,
    /// The snake ate the food and now covers the whole board; the game is over.
    BoardFull,
}

/// The abstract state of a game.
pub struct GameState {
    pub body: Seq<Cell>,
    pub dir: Direction,
    pub food: Cell,
    pub score: nat,
    pub phase: Phase,
}

/// The states a game can be in: a valid body, a score no larger than the body,
/// and while running, food on a free interior cell.
pub open spec fn valid_state(g: GameState) -> bool {
    &&& valid_body(g.body)
    &&& g.score <= g.body.len()
    &&& g.phase == Phase::Running ==> in_interior(g.food) && !g.body.contains(g.food)
}

/// The cell the head moves to on the next tick.
pub open spec fn next_head(g: GameState) -> Cell {
    offset_spec(g.body[0], g.dir)
}

/// The body after eating: the next head in front of the whole body.
pub open spec fn grown_body(g: GameState) -> Seq<Cell> {
    seq![next_head(g)] + g.body
}

/// The next tick of a running game eats the food.
pub open spec fn eats(g: GameState) -> bool {
    &&& g.phase == Phase::Running
    &&& !is_wall_spec(next_head(g))
    &&& !g.body.contains(next_head(g))
    &&& next_head(g) == g.food
}

/// State and outcome after one tick from `g`, where `new_food` is the cell chosen for
/// the food if the snake eats (`None`: no free cell is left).
pub open spec fn step_spec(g: GameState, new_food: Option<Cell>) -> (GameState, Outcome) {
    let h = next_head(g);
    if g.phase == Phase::GameOver {
        (g, Outcome::Idle)
    } else if is_wall_spec(h) {
        (GameState { phase: Phase::GameOver, ..g }, Outcome::HitWall)
    } else if g.body.contains(h) {
        (GameState { phase: Phase::GameOver, ..g }, Outcome::HitSelf)
    } else if h == g.food {
        match new_food {
            Some(f) => (
                GameState { body: seq![h] + g.body, food: f, score: g.score + 1, ..g },
                Outcome::Ate,
            ),
            None => (
                GameState {
                    body: seq![h] + g.body,
                    score: g.score + 1,
                    phase: Phase::GameOver,
                    ..g
                },
                Outcome::BoardFull,
            ),
        }
    } else {
        (GameState { body: seq![h] + g.body.drop_last(), ..g }, Outcome::Moved)
    }
}

/// The food cell that `choice` selects on body `s`: entry `choice % n` of the `n` free cells.
pub open spec fn chosen_food(s: Seq<Cell>, choice: usize) -> Option<Cell> {
    let free = free_cells_spec(s);
    if free.len() == 0 {
        None
    } else {
        Some(free[choice as int % free.len() as int])
    }
}

/// A tick never shortens the snake and lengthens it by at most one cell.
pub proof fn lemma_step_length(g: GameState, new_food: Option<Cell>)
    requires
        valid_state(g),
    ensures
        g.body.len() <= step_spec(g, new_food).0.body.len() <= g.body.len() + 1,
{
}

/// From a valid state, a tick leads to a valid state, provided the food it places
/// (if any) is on a free interior cell of the grown body: in particular no two
/// segments ever share a cell.
pub proof fn lemma_step_valid(g: GameState, new_food: Option<Cell>)
    requires
        valid_state(g),
        new_food matches Some(f) ==> in_interior(f) && !grown_body(g).contains(f),
    ensures
        valid_state(step_spec(g, new_food).0),
{
    let h = next_head(g);
    if g.phase == Phase::Running && !is_wall_spec(h) && !g.body.contains(h) {
        lemma_advance_valid(g.body, h, h == g.food);
        assert(advanced(g.body, h, true) == seq![h] + g.body);
    }
}

/// A tick is due once at least `TICK_MS` milliseconds have passed since the last one.
pub fn tick_due(elapsed_ms: u64) -> (r: bool)
    ensures
        r == (elapsed_ms >= TICK_MS),
{
    elapsed_ms >= TICK_MS
}

/// A game of snake: the body, its heading, the food, the score and the phase.
pub struct Game {
    snake: Snake,
    dir: Direction,
    food: Cell,
    score: usize,
    phase: Phase,
}

impl View for Game {
    type V = GameState;

    closed spec fn view(&self) -> GameState {
        GameState {
            body: self.snake@,
            dir: self.dir,
            food: self.food,
            score: self.score as nat,
            phase: self.phase,
        }
    }
}

impl Game {
    /// The game's state is one a game can reach.
    pub open spec fn wf(&self) -> bool {
        valid_state(self@)
    }

    /// A new running game: the starting snake heading right, score 0, and food on a
    /// random free cell.
    pub fn new(rng: &mut ThreadRng) -> (r: Game)
        ensures
            r.wf(),
            r@.body == initial_body(),
            r@.dir == Direction::Right,
            r@.score == 0,
            r@.phase == Phase::Running,
    {
        let snake = Snake::initial();
        proof {
            let c: Cell = (1, 1);
            assert(in_interior(c));
            assert(!snake@.contains(c)) by {
                if snake@.contains(c) {
                    let j = choose|j: int| 0 <= j < snake@.len() && snake@[j] == c;
                }
            }
        }
        let food = spawn_food(&snake, rng).unwrap();
        Game { snake, dir: Direction::Right, food, score: 0, phase: Phase::Running }
    }

    /// A running game with the given body (head first), heading, food and score, when
    /// these form a valid state; `None` otherwise.
    pub fn from_parts(cells: &Vec<Cell>, dir: Direction, food: Cell, score: usize) -> (r: Option<
        Game,
    >)
        ensures
            r is Some <==> valid_state(
                GameState { body: cells@, dir, food, score: score as nat, phase: Phase::Running },
            ),
            r matches Some(g) ==> g@ == (GameState {
                body: cells@,
                dir,
                food,
                score: score as nat,
                phase: Phase::Running,
            }),
    {
        let snake = Snake::from_cells(cells);
        if !snake.is_valid() || score > snake.len() || is_wall(food) || snake.occupies(food) {
            return None;
        }
        Some(Game { snake, dir, food, score, phase: Phase::Running })
    }

    /// The snake.
    pub fn snake(&self) -> (r: &Snake)
        ensures
            r@ == self@.body,
    {
        &self.snake
    }

    /// The current heading.
    pub fn direction(&self) -> (r: Direction)
        ensures
            r == self@.dir,
    {
        self.dir
    }

    /// The food's cell.
    pub fn food(&self) -> (r: Cell)
        ensures
            r == self@.food,
    {
        self.food
    }

    /// Food eaten so far.
    pub fn score(&self) -> (r: usize)
        ensures
            r == self@.score,
    {
        self.score
    }

    /// Whether the game goes on or is over.
    pub fn phase(&self) -> (r: Phase)
        ensures
            r == self@.phase,
    {
        self.phase
    }

    /// Applies the keys read since the last call, in order. While the game runs, the
    /// heading follows the accepted turns and a quit key ends the game; once it is over,
    /// keys change nothing. Returns whether a quit key ended the game.
    pub fn handle_keys(&mut self, keys: &Vec<Key>) -> (quit: bool)
        requires
            old(self).wf(),
        ensures
            final(self).wf(),
            old(self)@.phase == Phase::Running ==> {
                let d = drain_spec(old(self)@.dir, keys@);
                &&& quit == d.1
                &&& final(self)@ == (GameState {
                    dir: d.0,
                    phase: if d.1 {
                        Phase::GameOver
                    } else {
                        Phase::Running
                    },
                    ..old(self)@
                })
            },
            old(self)@.phase == Phase::GameOver ==> !quit && final(self)@ == old(self)@,
    {
        if self.phase == Phase::GameOver {
            return false;
        }
        let (d, q) = drain_keys(self.dir, keys);
        self.dir = d;
        if q {
            self.phase = Phase::GameOver;
        }
        q
    }

    /// Moves the head one cell and reports what happened; no state changes on a crash.
    /// Returns the outcome, with `Ate` meaning the food must be placed again.
    fn move_snake(&mut self) -> (o: Outcome)
        requires
            old(self).wf(),
        ensures
            o == Outcome::Ate ==> eats(old(self)@) && final(self)@ == (GameState {
                body: grown_body(old(self)@),
                score: old(self)@.score + 1,
                ..old(self)@
            }) && valid_body(final(self)@.body) && final(self)@.score <= final(self)@.body.len(),
            o != Outcome::Ate ==> !eats(old(self)@) && final(self).wf() && (final(self)@, o)
                == step_spec(old(self)@, None),
    {
        if self.phase == Phase::GameOver {
            return Outcome::Idle;
        }
        let h = offset(self.snake.head(), self.dir);
        if is_wall(h) {
            self.phase = Phase::GameOver;
            return Outcome::HitWall;
        }
        if self.snake.occupies(h) {
            self.phase = Phase::GameOver;
            return Outcome::HitSelf;
        }
        let grew = h.0 == self.food.0 && h.1 == self.food.1;
        self.snake.advance(h, grew);
        if grew {
            // the body just grew past the score, and its length fits in a usize
            let n = self.snake.len();
            assert(self.score < n);
            self.score = self.score + 1;
            Outcome::Ate
        } else {
            assert(self.snake@ == seq![h] + old(self)@.body.drop_last());
            Outcome::Moved
        }
    }

    /// One tick with the food choice given: if the snake eats, the new food is entry
    /// `choice % n` of the `n` free cells of the grown body, in row-major order.
    pub fn tick_with(&mut self, choice: usize) -> (o: Outcome)
        requires
            old(self).wf(),
        ensures
            final(self).wf(),
            (final(self)@, o) == step_spec(old(self)@, chosen_food(grown_body(old(self)@), choice)),
            old(self)@.body.len() <= final(self)@.body.len() <= old(self)@.body.len() + 1,
    {
        let o = self.move_snake();
        if o == Outcome::Ate {
            match food_from_choice(&self.snake, choice) {
                Some(c) => {
                    self.food = c;
                    Outcome::Ate
                },
                None => {
                    self.phase = Phase::GameOver;
                    Outcome::BoardFull
                },
            }
        } else {
            o
        }
    }

    /// One tick: move, detect a wall or the snake itself, eat and place new food on a
    /// random free cell. The food argument of `step_spec` is the cell that was drawn.
    pub fn tick(&mut self, rng: &mut ThreadRng) -> (o: Outcome)
        requires
            old(self).wf(),
        ensures
            final(self).wf(),
            (final(self)@, o) == step_spec(
                old(self)@,
                if o == Outcome::Ate {
                    Some(final(self)@.food)
                } else {
                    None
                },
            ),
            eats(old(self)@) ==> (o == Outcome::BoardFull <==> board_full(grown_body(old(self)@))),
            o == Outcome::Ate ==> free_cells_spec(final(self)@.body).contains(final(self)@.food),
            old(self)@.body.len() <= final(self)@.body.len() <= old(self)@.body.len() + 1,
    {
        let o = self.move_snake();
        if o == Outcome::Ate {
            match spawn_food(&self.snake, rng) {
                Some(c) => {
                    self.food = c;
                    Outcome::Ate
                },
                None => {
                    self.phase = Phase::GameOver;
                    Outcome::BoardFull
                },
            }
        } else {
            o
        }
    }
}

} // verus!
