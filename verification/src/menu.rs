use vstd::prelude::*;

verus! {

/// The selectable game modes. Each mode is a row of the pacing/scoring
/// table below: a base movement period, a per-level acceleration, an
/// optional session time limit, and whether the score-multiplier power-up
/// is available (hard mode only).
#[derive(Clone, Copy, PartialEq, Eq, Structural, Debug)]
pub enum GameMode {
    Easy,
    Medium,
    Hard,
    Timer,
    Survival,
}

impl GameMode {
    /// Base movement period in milliseconds: the time one cell of snake
    /// movement takes at level 1, before acceleration.
    pub open spec fn base_speed_spec(self) -> u64 {
        match self {
            GameMode::Easy => 400,
            GameMode::Medium => 300,
            GameMode::Hard => 200,
            GameMode::Timer => 300,
            GameMode::Survival => 300,
        }
    }

    pub fn get_base_speed(&self) -> (r: u64)
        ensures
            r == self.base_speed_spec(),
    {
        match self {
            GameMode::Easy => 400,
            GameMode::Medium => 300,
            GameMode::Hard => 200,
            GameMode::Timer => 300,
            GameMode::Survival => 300,
        }
    }

    /// Per-level acceleration, in percent: the movement period divides by
    /// (1 + level * this / 100), so a higher value speeds the game up
    /// faster as the level rises.
    pub open spec fn speed_multiplier_spec(self) -> u64 {
        match self {
            GameMode::Easy => 5,
            GameMode::Medium => 8,
            GameMode::Hard => 12,
            GameMode::Timer => 8,
            GameMode::Survival => 8,
        }
    }

    pub fn get_speed_multiplier(&self) -> (r: u64)
        ensures
            r == self.speed_multiplier_spec(),
    {
        match self {
            GameMode::Easy => 5,
            GameMode::Medium => 8,
            GameMode::Hard => 12,
            GameMode::Timer => 8,
            GameMode::Survival => 8,
        }
    }

    pub fn get_name(&self) -> (r: &'static str)
        ensures
            self is Easy ==> r@ == "EASY"@,
            self is Medium ==> r@ == "MEDIUM"@,
            self is Hard ==> r@ == "HARD"@,
            self is Timer ==> r@ == "TIMER"@,
            self is Survival ==> r@ == "SURVIVAL"@,
    {
        match self {
            GameMode::Easy => "EASY",
            GameMode::Medium => "MEDIUM",
            GameMode::Hard => "HARD",
            GameMode::Timer => "TIMER",
            GameMode::Survival => "SURVIVAL",
        }
    }

    pub fn is_timed_mode(&self) -> (r: bool)
        ensures
            r == (self is Timer),
    {
        matches!(self, GameMode::Timer)
    }

    /// Session time limit in milliseconds; zero for the untimed modes.
    pub open spec fn time_limit_spec(self) -> u64 {
        match self {
            GameMode::Timer => 60000,
            _ => 0,
        }
    }

    pub fn get_time_limit(&self) -> (r: u64)
        ensures
            r == self.time_limit_spec(),
    {
        match self {
            GameMode::Timer => 60000,
            _ => 0,
        }
    }
}

/// The three screens the driving loop switches between.
#[derive(Clone, Copy, PartialEq, Eq, Structural, Debug)]
pub enum GameState {
    Menu,
    Playing,
    GameOver,
}

/// The mode-selection menu: the fixed list of modes and the index of the
/// highlighted one.
pub struct Menu {
    pub selected_mode: usize,
    pub modes: Vec<GameMode>,
}

impl Menu {
    pub open spec fn wf(self) -> bool {
        &&& self.modes@ =~= seq![
            GameMode::Easy,
            GameMode::Medium,
            GameMode::Hard,
            GameMode::Timer,
            GameMode::Survival,
        ]
        &&& self.selected_mode < self.modes@.len()
    }

    /// A fresh menu with every mode listed and the middle difficulty
    /// highlighted.
    pub fn new() -> (m: Menu)
        ensures
            m.wf(),
            m.selected_mode == 1,
    {
        let mut modes: Vec<GameMode> = Vec::new();
        modes.push(GameMode::Easy);
        modes.push(GameMode::Medium);
        modes.push(GameMode::Hard);
        modes.push(GameMode::Timer);
        modes.push(GameMode::Survival);
        Menu { selected_mode: 1, modes }
    }

    /// Move the highlight one entry down, wrapping past the last mode.
    pub fn select_next(&mut self)
        requires
            old(self).wf(),
        ensures
            final(self).wf(),
            final(self).modes@ == old(self).modes@,
            final(self).selected_mode == (old(self).selected_mode + 1) % 5,
    {
        self.selected_mode = (self.selected_mode + 1) % self.modes.len();
    }

    /// Move the highlight one entry up, wrapping past the first mode.
    pub fn select_prev(&mut self)
        requires
            old(self).wf(),
        ensures
            final(self).wf(),
            final(self).modes@ == old(self).modes@,
            final(self).selected_mode == if old(self).selected_mode == 0 {
                4int
            } else {
                old(self).selected_mode - 1
            },
    {
        if self.selected_mode == 0 {
            self.selected_mode = self.modes.len() - 1;
        } else {
            self.selected_mode = self.selected_mode - 1;
        }
    }

    pub fn get_selected_mode(&self) -> (r: GameMode)
        requires
            self.wf(),
        ensures
            r == self.modes@[self.selected_mode as int],
    {
        self.modes[self.selected_mode]
    }
}

} // verus!
