//! Menu cursors: the game-over menu and the pause menu, each a closed
//! three-element enumeration with cyclic successor and predecessor moves.

use vstd::prelude::*;

verus! {

/// Highlighted button of the game-over menu. `NoSelection` is the state
/// after the pointer leaves every button.
#[derive(Clone, Copy, PartialEq, Eq, Structural, Debug)]
pub enum GameOverMenuSelectedButton {
    Restart,
    Quit,
    NoSelection,
}

/// Highlighted button of the pause menu.
#[derive(Clone, Copy, PartialEq, Eq, Structural, Debug)]
pub enum PauseMenuSelectedButton {
    NoSelection,
    Upgrades,
    Quit,
}

/// Successor in the game-over menu's cycle.
pub open spec fn go_next(s: GameOverMenuSelectedButton) -> GameOverMenuSelectedButton {
    match s {
        GameOverMenuSelectedButton::Restart => GameOverMenuSelectedButton::Quit,
        GameOverMenuSelectedButton::Quit => GameOverMenuSelectedButton::NoSelection,
        GameOverMenuSelectedButton::NoSelection => GameOverMenuSelectedButton::Restart,
    }
}

/// Predecessor in the game-over menu's cycle.
pub open spec fn go_prev(s: GameOverMenuSelectedButton) -> GameOverMenuSelectedButton {
    match s {
        GameOverMenuSelectedButton::Restart => GameOverMenuSelectedButton::NoSelection,
        GameOverMenuSelectedButton::Quit => GameOverMenuSelectedButton::Restart,
        GameOverMenuSelectedButton::NoSelection => GameOverMenuSelectedButton::Quit,
    }
}

/// Successor in the pause menu's cycle.
pub open spec fn pause_next(s: PauseMenuSelectedButton) -> PauseMenuSelectedButton {
    match s {
        PauseMenuSelectedButton::NoSelection => PauseMenuSelectedButton::Upgrades,
        PauseMenuSelectedButton::Upgrades => PauseMenuSelectedButton::Quit,
        PauseMenuSelectedButton::Quit => PauseMenuSelectedButton::NoSelection,
    }
}

/// Predecessor in the pause menu's cycle.
pub open spec fn pause_prev(s: PauseMenuSelectedButton) -> PauseMenuSelectedButton {
    match s {
        PauseMenuSelectedButton::NoSelection => PauseMenuSelectedButton::Quit,
        PauseMenuSelectedButton::Upgrades => PauseMenuSelectedButton::NoSelection,
        PauseMenuSelectedButton::Quit => PauseMenuSelectedButton::Upgrades,
    }
}

impl GameOverMenuSelectedButton {
    /// The button highlighted after one step to the right.
    pub fn next(&self) -> (r: GameOverMenuSelectedButton)
        ensures
            r == go_next(*self),
    {
        match self {
            GameOverMenuSelectedButton::Restart => GameOverMenuSelectedButton::Quit,
            GameOverMenuSelectedButton::Quit => GameOverMenuSelectedButton::NoSelection,
            GameOverMenuSelectedButton::NoSelection => GameOverMenuSelectedButton::Restart,
        }
    }

    /// The button highlighted after one step to the left.
    pub fn prev(&self) -> (r: GameOverMenuSelectedButton)
        ensures
            r == go_prev(*self),
    {
        match self {
            GameOverMenuSelectedButton::Restart => GameOverMenuSelectedButton::NoSelection,
            GameOverMenuSelectedButton::Quit => GameOverMenuSelectedButton::Restart,
            GameOverMenuSelectedButton::NoSelection => GameOverMenuSelectedButton::Quit,
        }
    }
}

impl PauseMenuSelectedButton {
    /// Move the highlight one step down.
    pub fn next(&mut self)
        ensures
            *final(self) == pause_next(*old(self)),
    {
        *self = match *self {
            PauseMenuSelectedButton::NoSelection => PauseMenuSelectedButton::Upgrades,
            PauseMenuSelectedButton::Upgrades => PauseMenuSelectedButton::Quit,
            PauseMenuSelectedButton::Quit => PauseMenuSelectedButton::NoSelection,
        };
    }

    /// Move the highlight one step up.
    pub fn prev(&mut self)
        ensures
            *final(self) == pause_prev(*old(self)),
    {
        *self = match *self {
            PauseMenuSelectedButton::NoSelection => PauseMenuSelectedButton::Quit,
            PauseMenuSelectedButton::Upgrades => PauseMenuSelectedButton::NoSelection,
            PauseMenuSelectedButton::Quit => PauseMenuSelectedButton::Upgrades,
        };
    }
}

/// The game-over menu's moves invert each other: next(prev(x)) == x and
/// prev(next(x)) == x for every state x.
pub proof fn lemma_game_over_menu_cycle(s: GameOverMenuSelectedButton)
    ensures
        go_next(go_prev(s)) == s,
        go_prev(go_next(s)) == s,
{
}

/// The pause menu's moves invert each other: next(prev(x)) == x and
/// prev(next(x)) == x for every state x.
pub proof fn lemma_pause_menu_cycle(s: PauseMenuSelectedButton)
    ensures
        pause_next(pause_prev(s)) == s,
        pause_prev(pause_next(s)) == s,
{
}

} // verus!
