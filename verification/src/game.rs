//! Session-wide state cells: the `Game` scoreboard, the pause flag, the
//! field dimensions, and the small tunable resources that upgrades modify.

use vstd::prelude::*;
use crate::constants::{
    ACCEL_ANALOG, ACCEL_DIGITAL, COIN_BOUNDARY, COORD_LIMIT, FIELD_HEIGHT_DEFAULT,
    FIELD_WIDTH_DEFAULT, HUNGER_RATE_DEFAULT,
};

verus! {

/// Score, currency and the game-over flag; one instance per session.
#[derive(Clone, Copy, PartialEq, Eq, Structural, Debug)]
pub struct Game {
    pub game_over: bool,
    pub score: usize,
    pub coins: i64,
}

impl Game {
    /// Currency never goes negative: purchases are gated by a price check
    /// and collection only adds.
    pub open spec fn wf(self) -> bool {
        self.coins >= 0
    }

    pub fn new() -> (g: Game)
        ensures
            g.game_over == false,
            g.score == 0,
            g.coins == 0,
            g.wf(),
    {
        Game { game_over: false, score: 0, coins: 0 }
    }

    /// Reset to the session defaults.
    pub fn restart(&mut self)
        ensures
            final(self).game_over == false,
            final(self).score == 0,
            final(self).coins == 0,
            final(self).wf(),
    {
        *self = Game::new();
    }
}

/// True while the game-over screen gates the simulation.
pub fn game_is_over(game: &Game) -> (r: bool)
    ensures
        r == game.game_over,
{
    game.game_over
}

/// Whether the player can pay the given price. A purchase goes through
/// only when the coins strictly exceed it.
pub fn can_afford(game: &Game, price: i64) -> (r: bool)
    ensures
        r == (game.coins > price),
{
    game.coins > price
}

/// The pause screens as one closed state: either the game runs, or the
/// pause panel is shown, or the upgrades submenu is shown. Exactly one
/// holds, so the two panels can never be visible at once.
#[derive(Clone, Copy, PartialEq, Eq, Structural, Debug)]
pub enum PauseState {
    Unpaused,
    PauseMenuShown,
    UpgradesMenuShown,
}

/// True while a pause screen gates the simulation.
pub fn game_is_paused(paused: &PauseState) -> (r: bool)
    ensures
        r == !(*paused is Unpaused),
{
    match paused {
        PauseState::Unpaused => false,
        _ => true,
    }
}

/// Logical size of the rectangular play field, in milli-units.
#[derive(Clone, Copy, PartialEq, Eq, Structural, Debug)]
pub struct GameFieldSize {
    pub x: i64,
    pub y: i64,
}

impl GameFieldSize {
    /// Wide enough that the head and every spawn margin fit, and small
    /// enough that all boundary arithmetic stays in range.
    pub open spec fn wf(self) -> bool {
        &&& 2 * COIN_BOUNDARY + 2 <= self.x <= COORD_LIMIT
        &&& 2 * COIN_BOUNDARY + 2 <= self.y <= COORD_LIMIT
    }

    pub fn default_size() -> (r: GameFieldSize)
        ensures
            r.x == FIELD_WIDTH_DEFAULT,
            r.y == FIELD_HEIGHT_DEFAULT,
            r.wf(),
    {
        GameFieldSize { x: FIELD_WIDTH_DEFAULT, y: FIELD_HEIGHT_DEFAULT }
    }
}

/// Health drained per second; upgrades may raise it.
#[derive(Clone, Copy, PartialEq, Eq, Structural, Debug)]
pub struct HungerRate(pub i64);

/// Acceleration tunables; upgrades may raise them.
#[derive(Clone, Copy, PartialEq, Eq, Structural, Debug)]
pub struct SnakeSpeed {
    pub analog: i64,
    pub discrete: i64,
}

impl SnakeSpeed {
    pub open spec fn wf(self) -> bool {
        &&& 0 <= self.analog <= 100_000_000
        &&& 0 <= self.discrete <= 100_000_000
    }

    pub fn default_speed() -> (r: SnakeSpeed)
        ensures
            r.analog == ACCEL_ANALOG,
            r.discrete == ACCEL_DIGITAL,
            r.wf(),
    {
        SnakeSpeed { analog: ACCEL_ANALOG, discrete: ACCEL_DIGITAL }
    }
}

/// Whether the debug overlay is shown.
#[derive(Clone, Copy, PartialEq, Eq, Structural, Debug)]
pub struct DebugSettings {
    pub output_shown: bool,
}

/// Gating predicate for the debug overlay's update.
pub fn debug_output_shown(debug_settings: &DebugSettings) -> (r: bool)
    ensures
        r == debug_settings.output_shown,
{
    debug_settings.output_shown
}

/// Health decay default wrapper.
pub fn default_hunger_rate() -> (r: HungerRate)
    ensures
        r.0 == HUNGER_RATE_DEFAULT,
{
    HungerRate(HUNGER_RATE_DEFAULT)
}

} // verus!
