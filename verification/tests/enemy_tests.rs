use snake_game::enemy::Enemy;
use snake_game::snake::Direction;
use snake_game::to_coord_u32;

#[test]
fn enemy_new_fields() {
    let e = Enemy::new(7, 9);
    assert_eq!(e.position(), (7, 9));
    assert_eq!(e.direction, Direction::Right);
    assert_eq!(e.move_counter, 0);
    assert_eq!(e.change_direction_counter, 0);
}

#[test]
fn enemy_check_collision_is_exact() {
    let e = Enemy::new(7, 9);
    assert!(e.check_collision(7, 9));
    assert!(!e.check_collision(7, 8));
    assert!(!e.check_collision(8, 9));
}

#[test]
fn enemy_first_update_does_not_move() {
    // the movement-rate divider lets the enemy move only every second update
    let mut e = Enemy::new(7, 9);
    e.update(20, 20);
    assert_eq!(e.position(), (7, 9));
    assert_eq!(e.move_counter, 1);
}

#[test]
fn enemy_moves_on_second_update() {
    let mut e = Enemy {
        x: 5,
        y: 5,
        direction: Direction::Right,
        move_counter: 1,
        change_direction_counter: 0,
    };
    e.update(20, 20);
    assert_eq!(e.position(), (6, 5));
    assert_eq!(e.move_counter, 0);
}

#[test]
fn enemy_bounces_off_interior_boundary() {
    let mut e = Enemy {
        x: 1,
        y: 5,
        direction: Direction::Left,
        move_counter: 1,
        change_direction_counter: 0,
    };
    e.update(20, 20);
    // at the boundary the heading reverses instead of stepping onto a wall
    assert_eq!(e.position(), (1, 5));
    assert_eq!(e.direction, Direction::Right);
}

#[test]
fn enemy_stays_inside_interior_over_many_updates() {
    let mut e = Enemy::new(1, 1);
    for _ in 0..500 {
        e.update(20, 20);
        let (x, y) = e.position();
        assert!(x >= 1 && x <= 18, "x out of interior: {}", x);
        assert!(y >= 1 && y <= 18, "y out of interior: {}", y);
    }
}

#[test]
fn grid_coordinate_scaling() {
    assert_eq!(to_coord_u32(0), 0);
    assert_eq!(to_coord_u32(1), 25);
    assert_eq!(to_coord_u32(20), 500);
    assert_eq!(to_coord_u32(32), 800);
    assert_eq!(to_coord_u32(-5), 0);
    assert_eq!(to_coord_u32(i32::MAX), u32::MAX);
}
