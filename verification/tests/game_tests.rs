use snake_game::game::{Game, GridError, PlayerId};
use snake_game::menu::GameMode;
use snake_game::snake::Direction;

#[test]
fn new_rejects_degenerate_grid() {
    assert!(matches!(Game::new(5, 5, GameMode::Medium), Err(GridError::TooSmall)));
    assert!(matches!(Game::new(18, 20, GameMode::Medium), Err(GridError::TooSmall)));
    assert!(matches!(Game::new(20, 2, GameMode::Medium), Err(GridError::TooSmall)));
    assert!(Game::new(19, 3, GameMode::Medium).is_ok());
    assert!(Game::new(20, 20, GameMode::Medium).is_ok());
}

#[test]
fn new_game_initial_state() {
    let g = Game::new(20, 20, GameMode::Medium).unwrap();
    assert_eq!(g.snake1.head_position(), (4, 10));
    assert_eq!(g.snake1.head_direction(), Direction::Right);
    assert_eq!(g.snake2.head_position(), (16, 10));
    assert_eq!(g.snake2.head_direction(), Direction::Left);
    assert!(!g.food_exist);
    assert!(!g.is_game_over());
    assert_eq!(g.get_score(), 0);
    assert_eq!(g.get_level(), 1);
    assert_eq!(g.foods_eaten, 0);
    assert_eq!(g.enemies.len(), 0);
    assert_eq!(g.score_multiplier, 1);
    assert_eq!(g.high_score, 0);
}

#[test]
fn key_press_moves_at_once() {
    let mut g = Game::new(20, 20, GameMode::Medium).unwrap();
    g.key_pressed(PlayerId::One, Direction::Right);
    assert_eq!(g.snake1.head_position(), (5, 10));
    g.key_pressed(PlayerId::One, Direction::Up);
    assert_eq!(g.snake1.head_position(), (5, 9));
    g.key_pressed(PlayerId::Two, Direction::Left);
    assert_eq!(g.snake2.head_position(), (15, 10));
}

#[test]
fn reverse_input_is_dropped_any_number_of_times() {
    let mut g = Game::new(20, 20, GameMode::Medium).unwrap();
    for _ in 0..10 {
        g.key_pressed(PlayerId::One, Direction::Left);
    }
    // the exact reverse of the current heading never changes the heading
    // and never ends the session
    assert_eq!(g.snake1.head_position(), (4, 10));
    assert_eq!(g.snake1.head_direction(), Direction::Right);
    assert!(!g.is_game_over());

    for _ in 0..10 {
        g.key_pressed(PlayerId::Two, Direction::Right);
    }
    assert_eq!(g.snake2.head_position(), (16, 10));
    assert_eq!(g.snake2.head_direction(), Direction::Left);
    assert!(!g.is_game_over());
}

#[test]
fn eating_five_foods_raises_level() {
    // all movement here goes through key presses, before any tick, so no
    // enemies exist and the run is fully deterministic
    let mut g = Game::new(20, 20, GameMode::Medium).unwrap();
    for k in 1..=5 {
        assert!(g.place_food(4 + k, 10));
        g.key_pressed(PlayerId::One, Direction::Right);
        assert_eq!(g.foods_eaten, k as u64);
        assert_eq!(g.snake1.body.len(), 3 + k as usize);
        assert_eq!(g.score1, 10 * k as u64);
    }
    assert_eq!(g.get_level(), 2);
    assert!(!g.is_game_over());
}

#[test]
fn place_food_refuses_walls_and_occupants() {
    let mut g = Game::new(20, 20, GameMode::Medium).unwrap();
    assert!(!g.place_food(0, 10));
    assert!(!g.place_food(19, 10));
    assert!(!g.place_food(10, 0));
    assert!(!g.place_food(4, 10));  // snake1's head
    assert!(!g.place_food(17, 10)); // snake2's body
    assert!(g.place_food(11, 10));
    assert!(g.food_exist);
    assert_eq!((g.food_x, g.food_y), (11, 10));
}

#[test]
fn sampler_returns_free_interior_cells() {
    let mut g = Game::new(20, 20, GameMode::Medium).unwrap();
    assert!(g.place_food(11, 10));
    for _ in 0..50 {
        let (x, y) = g.sample_free_cell().expect("interior is nearly empty");
        assert!(x >= 1 && x <= 18, "x out of interior: {}", x);
        assert!(y >= 1 && y <= 18, "y out of interior: {}", y);
        assert!(!g.is_cell_occupied(x, y));
        assert!((x, y) != (11, 10), "sampler landed on the food");
        assert!(!g.snake1.overlap_tail(x, y));
        assert!(!g.snake2.overlap_tail(x, y));
    }
}

#[test]
fn first_tick_spawns_food_and_one_enemy() {
    let mut g = Game::new(20, 20, GameMode::Medium).unwrap();
    g.update(100);
    assert!(g.food_exist);
    assert!(g.food_x >= 1 && g.food_x <= 18);
    assert!(g.food_y >= 1 && g.food_y <= 18);
    assert!(!g.snake1.overlap_tail(g.food_x, g.food_y));
    assert!(!g.snake2.overlap_tail(g.food_x, g.food_y));
    // the level-1 target keeps one hostile entity alive
    assert_eq!(g.enemies.len(), 1);
    let (ex, ey) = g.enemies[0].position();
    assert!(ex >= 1 && ex <= 18 && ey >= 1 && ey <= 18);
}

#[test]
fn survival_death_records_high_score_and_restart_keeps_it() {
    let mut g = Game::new(20, 20, GameMode::Survival).unwrap();
    assert!(g.place_food(5, 10));
    g.key_pressed(PlayerId::One, Direction::Right);
    assert_eq!(g.score1, 10);

    // drive the first snake into the top wall with key presses alone
    for _ in 0..10 {
        g.key_pressed(PlayerId::One, Direction::Up);
    }
    assert!(g.is_game_over());
    assert_eq!(g.final_score, 10);
    assert_eq!(g.high_score, 10);

    g.restart_game();
    assert!(!g.is_game_over());
    assert_eq!(g.get_score(), 0);
    assert_eq!(g.get_level(), 1);
    assert_eq!(g.foods_eaten, 0);
    assert_eq!(g.enemies.len(), 0);
    assert!(!g.food_exist);
    assert_eq!(g.snake1.head_position(), (4, 10));
    assert_eq!(g.snake2.head_position(), (16, 10));
    // the running high score survives the restart
    assert_eq!(g.high_score, 10);
}

#[test]
fn terminal_session_only_waits() {
    let mut g = Game::new(20, 20, GameMode::Medium).unwrap();
    for _ in 0..10 {
        g.key_pressed(PlayerId::One, Direction::Up);
    }
    assert!(g.is_game_over());
    assert!(!g.should_return_to_menu());
    let head = g.snake1.head_position();
    g.update(3001);
    assert!(g.should_return_to_menu());
    assert_eq!(g.snake1.head_position(), head);
    assert_eq!(g.waiting_time, 3001);
}

#[test]
fn dead_key_presses_are_ignored() {
    let mut g = Game::new(20, 20, GameMode::Medium).unwrap();
    for _ in 0..10 {
        g.key_pressed(PlayerId::One, Direction::Up);
    }
    assert!(g.is_game_over());
    let head1 = g.snake1.head_position();
    let head2 = g.snake2.head_position();
    g.key_pressed(PlayerId::One, Direction::Right);
    g.key_pressed(PlayerId::Two, Direction::Down);
    assert_eq!(g.snake1.head_position(), head1);
    assert_eq!(g.snake2.head_position(), head2);
}

#[test]
fn multiplier_doubles_first_players_award_in_hard_mode() {
    let mut g = Game::new(20, 20, GameMode::Hard).unwrap();
    g.arm_multiplier();
    assert_eq!(g.score_multiplier, 2);
    assert!(g.place_food(5, 10));
    g.key_pressed(PlayerId::One, Direction::Right);
    assert_eq!(g.score1, 20);

    // the second player always earns the base score
    assert!(g.place_food(15, 10));
    g.key_pressed(PlayerId::Two, Direction::Left);
    assert_eq!(g.score2, 10);
}

#[test]
fn arm_multiplier_is_mode_gated() {
    let mut g = Game::new(20, 20, GameMode::Easy).unwrap();
    g.arm_multiplier();
    assert_eq!(g.score_multiplier, 1);

    let mut h = Game::new(20, 20, GameMode::Hard).unwrap();
    h.arm_multiplier();
    assert_eq!(h.score_multiplier, 2);
    assert_eq!(h.multiplier_duration, 15000);
    // arming while active changes nothing
    h.multiplier_timer = 5;
    h.arm_multiplier();
    assert_eq!(h.multiplier_timer, 5);
}

#[test]
fn multiplier_roll_arms_exactly_below_ten() {
    let mut g = Game::new(20, 20, GameMode::Hard).unwrap();
    // at and above the threshold nothing is armed
    g.apply_multiplier_roll(10);
    g.apply_multiplier_roll(99);
    assert_eq!(g.score_multiplier, 1);
    // below the threshold an inactive multiplier is armed with its duration
    g.apply_multiplier_roll(9);
    assert_eq!(g.score_multiplier, 2);
    assert_eq!(g.multiplier_duration, 15000);
    assert_eq!(g.multiplier_timer, 0);
    // an active multiplier is never overwritten or re-armed
    g.multiplier_timer = 777;
    g.apply_multiplier_roll(0);
    assert_eq!(g.multiplier_timer, 777);

    // no arming outside hard mode, whatever the draw
    let mut e = Game::new(20, 20, GameMode::Survival).unwrap();
    e.apply_multiplier_roll(0);
    assert_eq!(e.score_multiplier, 1);
}
