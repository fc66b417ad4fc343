use snake_game::menu::{GameMode, GameState, Menu};

#[test]
fn menu_starts_on_medium() {
    let m = Menu::new();
    assert_eq!(m.selected_mode, 1);
    assert_eq!(m.get_selected_mode(), GameMode::Medium);
    assert_eq!(
        m.modes,
        vec![
            GameMode::Easy,
            GameMode::Medium,
            GameMode::Hard,
            GameMode::Timer,
            GameMode::Survival,
        ]
    );
}

#[test]
fn menu_select_next_wraps() {
    let mut m = Menu::new();
    m.select_next();
    assert_eq!(m.get_selected_mode(), GameMode::Hard);
    m.select_next();
    m.select_next();
    assert_eq!(m.get_selected_mode(), GameMode::Survival);
    m.select_next();
    assert_eq!(m.get_selected_mode(), GameMode::Easy);
}

#[test]
fn menu_select_prev_wraps() {
    let mut m = Menu::new();
    m.select_prev();
    assert_eq!(m.get_selected_mode(), GameMode::Easy);
    m.select_prev();
    assert_eq!(m.get_selected_mode(), GameMode::Survival);
}

#[test]
fn mode_pacing_table() {
    assert_eq!(GameMode::Easy.get_base_speed(), 400);
    assert_eq!(GameMode::Medium.get_base_speed(), 300);
    assert_eq!(GameMode::Hard.get_base_speed(), 200);
    assert_eq!(GameMode::Timer.get_base_speed(), 300);
    assert_eq!(GameMode::Survival.get_base_speed(), 300);

    assert_eq!(GameMode::Easy.get_speed_multiplier(), 5);
    assert_eq!(GameMode::Medium.get_speed_multiplier(), 8);
    assert_eq!(GameMode::Hard.get_speed_multiplier(), 12);
    assert_eq!(GameMode::Timer.get_speed_multiplier(), 8);
    assert_eq!(GameMode::Survival.get_speed_multiplier(), 8);
}

#[test]
fn mode_names() {
    assert_eq!(GameMode::Easy.get_name(), "EASY");
    assert_eq!(GameMode::Medium.get_name(), "MEDIUM");
    assert_eq!(GameMode::Hard.get_name(), "HARD");
    assert_eq!(GameMode::Timer.get_name(), "TIMER");
    assert_eq!(GameMode::Survival.get_name(), "SURVIVAL");
}

#[test]
fn only_timer_mode_is_timed() {
    assert!(GameMode::Timer.is_timed_mode());
    assert!(!GameMode::Easy.is_timed_mode());
    assert!(!GameMode::Medium.is_timed_mode());
    assert!(!GameMode::Hard.is_timed_mode());
    assert!(!GameMode::Survival.is_timed_mode());

    assert_eq!(GameMode::Timer.get_time_limit(), 60000);
    assert_eq!(GameMode::Easy.get_time_limit(), 0);
    assert_eq!(GameMode::Survival.get_time_limit(), 0);
}

#[test]
fn game_state_values_are_distinct() {
    assert_ne!(GameState::Menu, GameState::Playing);
    assert_ne!(GameState::Playing, GameState::GameOver);
    assert_ne!(GameState::Menu, GameState::GameOver);
}
