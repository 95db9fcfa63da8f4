//! Single-tick event queues. A producer appends during a tick, the
//! designated consumers read and clear before the tick ends, and whatever
//! is left is dropped when the next tick starts with a fresh queue.

use vstd::prelude::*;
use crate::menu::GameOverMenuSelectedButton;

verus! {

/// Every event kind the core exchanges within one tick.
#[derive(Clone, PartialEq, Eq, Debug)]
pub struct Events {
    /// Game-over notifications (boundary exit, self-collision, starvation).
    pub game_over: usize,
    /// Requests to open the pause menu.
    pub pause: usize,
    /// Confirmed restart requests from the game-over menu.
    pub restart: usize,
    /// Confirmed requests to terminate the application.
    pub quit: usize,
    /// Confirmed requests to open the upgrades submenu.
    pub upgrade_menu_clicked: usize,
    /// Game-over menu highlight changes, applied in order; the last wins.
    pub highlighted: Vec<GameOverMenuSelectedButton>,
    /// Clicked upgrade icons, by upgrade id, in click order.
    pub upgrade_icon_clicked: Vec<usize>,
}

impl Events {
    /// No event outlives a tick, so every count stays tiny; this bound
    /// keeps the increments free of overflow.
    pub open spec fn wf(self) -> bool {
        &&& self.game_over < 1_000_000_000
        &&& self.pause < 1_000_000_000
        &&& self.restart < 1_000_000_000
        &&& self.quit < 1_000_000_000
        &&& self.upgrade_menu_clicked < 1_000_000_000
        &&& self.highlighted@.len() < 1_000_000_000
        &&& self.upgrade_icon_clicked@.len() < 1_000_000_000
    }

    /// The fresh queue each tick starts with.
    pub fn empty() -> (r: Events)
        ensures
            r.game_over == 0,
            r.pause == 0,
            r.restart == 0,
            r.quit == 0,
            r.upgrade_menu_clicked == 0,
            r.highlighted@ =~= Seq::<GameOverMenuSelectedButton>::empty(),
            r.upgrade_icon_clicked@ =~= Seq::<usize>::empty(),
            r.wf(),
    {
        Events {
            game_over: 0,
            pause: 0,
            restart: 0,
            quit: 0,
            upgrade_menu_clicked: 0,
            highlighted: Vec::new(),
            upgrade_icon_clicked: Vec::new(),
        }
    }
}

} // verus!
