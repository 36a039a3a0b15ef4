use hellosnake::food::{food_from_choice, free_cells, spawn_food, CELLS};
use hellosnake::game::{tick_due, Game, Outcome, Phase};
use hellosnake::grid::{is_wall, offset, Cell, Direction, HEIGHT, TICK_MS, WIDTH};
use hellosnake::input::{drain_keys, turn, Key};
use hellosnake::render::game_over_text;
use hellosnake::snake::Snake;

fn all_cells_except(skip: &[Cell]) -> Vec<Cell> {
    let mut v = Vec::new();
    for y in 1..=HEIGHT {
        for x in 1..=WIDTH {
            if !skip.contains(&(x, y)) {
                v.push((x, y));
            }
        }
    }
    v
}

#[test]
fn walls_surround_interior() {
    assert!(is_wall((0, 5)));
    assert!(is_wall((5, 0)));
    assert!(is_wall((WIDTH + 1, 5)));
    assert!(is_wall((5, HEIGHT + 1)));
    assert!(!is_wall((1, 1)));
    assert!(!is_wall((WIDTH, HEIGHT)));
}

#[test]
fn offset_clamps_at_zero() {
    assert_eq!(offset((1, 1), Direction::Left), (0, 1));
    assert_eq!(offset((0, 1), Direction::Left), (0, 1));
    assert_eq!(offset((3, 0), Direction::Up), (3, 0));
    assert_eq!(offset((3, 4), Direction::Down), (3, 5));
    assert_eq!(offset((3, 4), Direction::Right), (4, 4));
    assert_eq!(offset((u16::MAX, 4), Direction::Right), (u16::MAX, 4));
}

#[test]
fn initial_snake_is_centered() {
    let s = Snake::initial();
    assert_eq!(s.cells(), vec![(15, 10), (14, 10), (13, 10)]);
    assert_eq!(s.head(), (15, 10));
    assert!(s.is_valid());
    assert!(s.occupies((13, 10)));
    assert!(!s.occupies((16, 10)));
}

#[test]
fn advance_keeps_or_grows() {
    let mut s = Snake::initial();
    s.advance((16, 10), false);
    assert_eq!(s.cells(), vec![(16, 10), (15, 10), (14, 10)]);
    s.advance((17, 10), true);
    assert_eq!(s.cells(), vec![(17, 10), (16, 10), (15, 10), (14, 10)]);
}

#[test]
fn invalid_bodies_detected() {
    assert!(!Snake::from_cells(&vec![]).is_valid());
    assert!(!Snake::from_cells(&vec![(2, 2), (3, 2), (2, 2)]).is_valid());
    assert!(!Snake::from_cells(&vec![(1, 1), (0, 1)]).is_valid());
    assert!(Snake::from_cells(&vec![(1, 1), (2, 1)]).is_valid());
}

#[test]
fn free_cells_exclude_snake() {
    let s = Snake::initial();
    let free = free_cells(&s);
    assert_eq!(free.len(), CELLS - 3);
    assert_eq!(free[0], (1, 1));
    assert!(!free.contains(&(15, 10)));
    assert!(free.contains(&(16, 10)));
}

#[test]
fn food_choice_is_row_major_modulo() {
    let s = Snake::initial();
    assert_eq!(food_from_choice(&s, 0), Some((1, 1)));
    assert_eq!(food_from_choice(&s, 31), Some((2, 2)));
    assert_eq!(food_from_choice(&s, CELLS - 3), Some((1, 1)));
    // row 10 holds the snake at columns 13..=15, so the free cell after (12, 10) is (16, 10)
    assert_eq!(food_from_choice(&s, 9 * 30 + 12), Some((16, 10)));
}

#[test]
fn spawn_never_on_snake() {
    let s = Snake::initial();
    let mut rng = rand::thread_rng();
    for _ in 0..500 {
        let c = spawn_food(&s, &mut rng).unwrap();
        assert!(!is_wall(c));
        assert!(!s.occupies(c));
    }
}

#[test]
fn spawn_on_last_free_cell() {
    let s = Snake::from_cells(&all_cells_except(&[(7, 9)]));
    let mut rng = rand::thread_rng();
    for _ in 0..20 {
        assert_eq!(spawn_food(&s, &mut rng), Some((7, 9)));
    }
}

#[test]
fn spawn_on_full_board_fails() {
    let s = Snake::from_cells(&all_cells_except(&[]));
    let mut rng = rand::thread_rng();
    assert_eq!(spawn_food(&s, &mut rng), None);
    assert_eq!(food_from_choice(&s, 5), None);
}

#[test]
fn no_keys_keep_direction() {
    for d in [Direction::Up, Direction::Down, Direction::Left, Direction::Right] {
        assert_eq!(drain_keys(d, &vec![]), (d, false));
    }
}

#[test]
fn reversal_is_rejected() {
    assert_eq!(turn(Direction::Right, Direction::Left), Direction::Right);
    assert_eq!(turn(Direction::Right, Direction::Up), Direction::Up);
    assert_eq!(turn(Direction::Right, Direction::Down), Direction::Down);
    assert_eq!(turn(Direction::Up, Direction::Down), Direction::Up);
    assert_eq!(
        drain_keys(Direction::Right, &vec![Key::Turn(Direction::Left)]),
        (Direction::Right, false)
    );
}

#[test]
fn later_keys_overwrite_earlier() {
    let keys = vec![Key::Turn(Direction::Up), Key::Other, Key::Turn(Direction::Left)];
    assert_eq!(drain_keys(Direction::Right, &keys), (Direction::Left, false));
    let keys = vec![Key::Turn(Direction::Down), Key::Quit, Key::Turn(Direction::Left)];
    assert_eq!(drain_keys(Direction::Right, &keys), (Direction::Down, true));
}

#[test]
fn tick_gate() {
    assert!(!tick_due(0));
    assert!(!tick_due(TICK_MS - 1));
    assert!(tick_due(TICK_MS));
    assert!(tick_due(1000));
}

#[test]
fn new_game_starts_centered_heading_right() {
    let g = Game::new(&mut rand::thread_rng());
    assert_eq!(g.snake().cells(), vec![(15, 10), (14, 10), (13, 10)]);
    assert_eq!(g.direction(), Direction::Right);
    assert_eq!(g.score(), 0);
    assert_eq!(g.phase(), Phase::Running);
    assert!(!is_wall(g.food()));
    assert!(!g.snake().occupies(g.food()));
}

#[test]
fn eating_grows_and_scores() {
    let start = Snake::initial().cells();
    let mut g = Game::from_parts(&start, Direction::Right, (16, 10), 0).unwrap();
    assert_eq!(g.tick_with(0), Outcome::Ate);
    assert_eq!(g.snake().len(), 4);
    assert_eq!(g.score(), 1);
    assert_eq!(g.snake().head(), (16, 10));
    assert_eq!(g.food(), (1, 1));
    assert_eq!(g.phase(), Phase::Running);
}

#[test]
fn eating_with_random_food() {
    let start = Snake::initial().cells();
    let mut g = Game::from_parts(&start, Direction::Right, (16, 10), 0).unwrap();
    assert_eq!(g.tick(&mut rand::thread_rng()), Outcome::Ate);
    assert_eq!(g.snake().len(), 4);
    assert_eq!(g.score(), 1);
    assert!(!g.snake().occupies(g.food()));
}

#[test]
fn plain_move_keeps_length() {
    let start = Snake::initial().cells();
    let mut g = Game::from_parts(&start, Direction::Right, (1, 1), 0).unwrap();
    assert_eq!(g.tick_with(0), Outcome::Moved);
    assert_eq!(g.snake().cells(), vec![(16, 10), (15, 10), (14, 10)]);
    assert_eq!(g.score(), 0);
    assert_eq!(g.food(), (1, 1));
}

#[test]
fn length_changes_by_at_most_one() {
    let mut g = Game::new(&mut rand::thread_rng());
    let mut rng = rand::thread_rng();
    let mut len = g.snake().len();
    for _ in 0..40 {
        g.tick(&mut rng);
        let now = g.snake().len();
        assert!(len <= now && now <= len + 1);
        len = now;
    }
}

#[test]
fn wall_ends_game_with_score_kept() {
    let body = vec![(30, 5), (29, 5), (28, 5)];
    let mut g = Game::from_parts(&body, Direction::Right, (1, 1), 2).unwrap();
    assert_eq!(g.tick_with(0), Outcome::HitWall);
    assert_eq!(g.phase(), Phase::GameOver);
    assert_eq!(g.score(), 2);
    assert_eq!(g.snake().cells(), body);
    assert_eq!(g.tick_with(0), Outcome::Idle);
}

#[test]
fn wall_at_zero_ends_game() {
    let body = vec![(1, 1), (2, 1)];
    let mut g = Game::from_parts(&body, Direction::Up, (5, 5), 0).unwrap();
    assert_eq!(g.tick_with(0), Outcome::HitWall);
    assert_eq!(g.phase(), Phase::GameOver);
}

#[test]
fn walking_to_wall_from_start() {
    let start = Snake::initial().cells();
    let mut g = Game::from_parts(&start, Direction::Right, (1, 1), 0).unwrap();
    for _ in 0..15 {
        assert_eq!(g.tick_with(0), Outcome::Moved);
    }
    assert_eq!(g.snake().head(), (30, 10));
    assert_eq!(g.tick_with(0), Outcome::HitWall);
    assert_eq!(g.score(), 0);
}

#[test]
fn turning_into_itself_ends_game() {
    let body = vec![(5, 5), (6, 5), (6, 6), (5, 6), (4, 6)];
    let mut g = Game::from_parts(&body, Direction::Left, (20, 20), 0).unwrap();
    assert!(!g.handle_keys(&vec![Key::Turn(Direction::Down)]));
    assert_eq!(g.direction(), Direction::Down);
    assert_eq!(g.tick_with(0), Outcome::HitSelf);
    assert_eq!(g.phase(), Phase::GameOver);
    assert_eq!(g.snake().cells(), body);
}

#[test]
fn quit_key_ends_game() {
    let start = Snake::initial().cells();
    let mut g = Game::from_parts(&start, Direction::Right, (1, 1), 0).unwrap();
    assert!(g.handle_keys(&vec![Key::Turn(Direction::Up), Key::Quit]));
    assert_eq!(g.phase(), Phase::GameOver);
    assert_eq!(g.tick_with(0), Outcome::Idle);
    assert!(!g.handle_keys(&vec![Key::Turn(Direction::Down)]));
    assert_eq!(g.direction(), Direction::Up);
}

#[test]
fn filling_the_board_ends_game() {
    let mut body = vec![(2, 1)];
    body.extend(all_cells_except(&[(1, 1), (2, 1)]));
    let mut g = Game::from_parts(&body, Direction::Left, (1, 1), 0).unwrap();
    assert_eq!(g.tick(&mut rand::thread_rng()), Outcome::BoardFull);
    assert_eq!(g.snake().len(), CELLS);
    assert_eq!(g.score(), 1);
    assert_eq!(g.phase(), Phase::GameOver);
}

#[test]
fn from_parts_rejects_bad_states() {
    let start = Snake::initial().cells();
    assert!(Game::from_parts(&vec![], Direction::Right, (1, 1), 0).is_none());
    assert!(Game::from_parts(&start, Direction::Right, (15, 10), 0).is_none());
    assert!(Game::from_parts(&start, Direction::Right, (0, 10), 0).is_none());
    assert!(Game::from_parts(&start, Direction::Right, (1, 1), 4).is_none());
    assert!(Game::from_parts(&vec![(1, 1), (1, 1)], Direction::Right, (5, 5), 0).is_none());
    assert!(Game::from_parts(&start, Direction::Right, (1, 1), 3).is_some());
}

#[test]
fn render_is_deterministic() {
    let g = Game::new(&mut rand::thread_rng());
    assert_eq!(g.render(), g.render());
}

#[test]
fn render_frame_layout() {
    let start = Snake::initial().cells();
    let g = Game::from_parts(&start, Direction::Right, (16, 10), 3).unwrap();
    let frame = g.render();
    let border = format!("+{}+", "-".repeat(30));
    let lines: Vec<&str> = frame.split("\r\n").collect();
    assert_eq!(lines.len(), 1 + 1 + 20 + 1 + 1);
    assert_eq!(lines[0], format!("\x1B[H{}", border));
    assert_eq!(lines[21], border);
    assert_eq!(lines[1], format!("|{}|", " ".repeat(30)));
    let row10 = format!("|{}oo◎●{}|", " ".repeat(12), " ".repeat(14));
    assert_eq!(lines[10], row10);
    assert_eq!(lines[22], "Score: 3  (WASD / Arrows 控制, Q 退出)");
    assert_eq!(lines[23], "");
}

#[test]
fn render_food_over_nothing_else() {
    let body = vec![(3, 2), (2, 2), (1, 2)];
    let g = Game::from_parts(&body, Direction::Right, (30, 20), 0).unwrap();
    let frame = g.render();
    let lines: Vec<&str> = frame.split("\r\n").collect();
    assert_eq!(lines[2], format!("|oo◎{}|", " ".repeat(27)));
    assert_eq!(lines[20], format!("|{}●|", " ".repeat(29)));
    assert!(frame.ends_with("Score: 0  (WASD / Arrows 控制, Q 退出)\r\n"));
}

#[test]
fn game_over_message() {
    assert_eq!(game_over_text(0), "Game Over! Score: 0. 按任意键退出...");
    assert_eq!(game_over_text(1234), "Game Over! Score: 1234. 按任意键退出...");
}
