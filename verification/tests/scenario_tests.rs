use snake_game::game::{Game, PlayerId};
use snake_game::menu::GameMode;
use snake_game::snake::Direction;

// The first tick of a session spawns one hostile entity on a random free
// cell. The scenarios below are deterministic except for that cell; on the
// rare draw where the entity blocks the second snake's path the attempt is
// redone with a fresh session. One attempt succeeds with probability well
// above 99%, so the bound is never reached in practice.
const ATTEMPTS: usize = 200;

#[test]
fn basic_eating_scenario() {
    // grid 20x20, snake steered to head (10,10) heading right, food at
    // (11,10); one tick covering one movement period eats it
    for _ in 0..ATTEMPTS {
        let mut g = Game::new(20, 20, GameMode::Medium).unwrap();
        for _ in 0..6 {
            g.key_pressed(PlayerId::One, Direction::Right);
        }
        assert_eq!(g.snake1.head_position(), (10, 10));
        let len_before = g.snake1.body.len();
        assert!(g.place_food(11, 10));

        // medium mode at level 1: period = 300 * 100 / 108 = 277 ms
        g.update(300);
        if g.is_game_over() {
            // the random enemy spawn blocked the second snake; retry
            continue;
        }
        assert_eq!(g.snake1.head_position(), (11, 10));
        assert_eq!(g.score1, 10);
        assert_eq!(g.get_score(), 10);
        assert_eq!(g.snake1.body.len(), len_before + 1);
        assert_eq!(g.foods_eaten, 1);
        assert_eq!(g.get_level(), 1);
        assert!(!g.food_exist);

        // the next tick re-places the food somewhere else, on a free cell
        g.update(1);
        if g.is_game_over() {
            continue;
        }
        assert!(g.food_exist);
        assert!((g.food_x, g.food_y) != (11, 10));
        assert!(g.food_x >= 1 && g.food_x <= 18);
        assert!(g.food_y >= 1 && g.food_y <= 18);
        assert!(!g.snake1.overlap_tail(g.food_x, g.food_y));
        assert!(!g.snake2.overlap_tail(g.food_x, g.food_y));
        return;
    }
    panic!("every attempt was blocked by the random enemy spawn");
}

#[test]
fn wall_collision_scenario() {
    // snake steered to head (1,9) heading left; one movement period later
    // the head would enter the wall column, so the session turns terminal
    // with no position change
    let mut g = Game::new(20, 20, GameMode::Medium).unwrap();
    g.key_pressed(PlayerId::One, Direction::Up);
    for _ in 0..3 {
        g.key_pressed(PlayerId::One, Direction::Left);
    }
    assert_eq!(g.snake1.head_position(), (1, 9));
    assert_eq!(g.snake1.head_direction(), Direction::Left);
    let body_before = g.snake1.body.clone();

    g.update(300);
    assert!(g.is_game_over());
    assert_eq!(g.snake1.body, body_before);
    assert_eq!(g.final_score, 0);
    assert_eq!(g.final_level, 1);
    assert_eq!(g.get_score(), 0);
}

#[test]
fn timed_mode_expiry_scenario() {
    // the timer mode carries a 60-second limit; once the accumulated
    // deltas reach it the session is terminal, mid-motion or not
    for _ in 0..ATTEMPTS {
        let mut g = Game::new(20, 20, GameMode::Timer).unwrap();
        assert_eq!(g.time_limit, 60000);

        g.update(30000);
        if g.is_game_over() {
            continue;
        }
        assert_eq!(g.game_time, 30000);

        g.update(30000);
        assert!(g.is_game_over());
        assert_eq!(g.game_time, 60000);
        assert_eq!(g.final_score, g.get_score());
        assert_eq!(g.final_level, g.get_level());
        return;
    }
    panic!("every attempt was blocked by the random enemy spawn");
}

#[test]
fn timed_mode_expiry_in_one_jump() {
    let mut g = Game::new(20, 20, GameMode::Timer).unwrap();
    g.update(60000);
    // the limit check precedes all movement, so nothing else happened
    assert!(g.is_game_over());
    assert_eq!(g.snake1.head_position(), (4, 10));
    assert_eq!(g.final_score, 0);
    assert_eq!(g.final_level, 1);
}

#[test]
fn multiplier_expiry_scenario() {
    // a multiplier armed with duration D resets to neutral once the
    // accumulated time since arming reaches D, and its timer restarts
    for _ in 0..ATTEMPTS {
        let mut g = Game::new(20, 20, GameMode::Hard).unwrap();
        g.arm_multiplier();
        assert_eq!(g.score_multiplier, 2);
        assert_eq!(g.multiplier_duration, 15000);
        assert_eq!(g.multiplier_timer, 0);

        g.update(7000);
        if g.is_game_over() {
            continue;
        }
        assert_eq!(g.score_multiplier, 2);
        assert_eq!(g.multiplier_timer, 7000);

        g.update(8000);
        if g.is_game_over() {
            continue;
        }
        assert_eq!(g.score_multiplier, 1);
        assert_eq!(g.multiplier_timer, 0);
        return;
    }
    panic!("every attempt was blocked by the random enemy spawn");
}

#[test]
fn multiplier_stays_neutral_outside_hard_mode() {
    let mut g = Game::new(20, 20, GameMode::Medium).unwrap();
    // a leftover timer value is cleared on the next tick, and the
    // multiplier never leaves neutral outside hard mode
    g.multiplier_timer = 123;
    g.update(1);
    assert_eq!(g.score_multiplier, 1);
    assert_eq!(g.multiplier_timer, 0);
    g.arm_multiplier();
    assert_eq!(g.score_multiplier, 1);
}
