//! The plain-value snapshot of one tick's input, as the device-polling
//! collaborator hands it to the core: held keys, edge-triggered presses
//! (already coalesced across keyboard and gamepad), an optional analog
//! stick, and pointer interactions with the menu buttons.

use vstd::prelude::*;
use crate::vec2::Vec2;

verus! {

/// A pointer's relation to a button this tick, reported only on change.
#[derive(Clone, Copy, PartialEq, Eq, Structural, Debug)]
pub enum ButtonInteraction {
    Pressed,
    Hovered,
    Idle,
}

/// One tick's input. Edge fields are true only on the tick the key or
/// button went down.
#[derive(Clone, PartialEq, Eq, Debug)]
pub struct InputFrame {
    /// Held directional keys.
    pub up_held: bool,
    pub down_held: bool,
    pub left_held: bool,
    pub right_held: bool,
    /// Left analog stick, milli-deflection per axis in [-1000, 1000];
    /// absent when no gamepad is connected.
    pub analog: Option<Vec2>,
    /// Pause key or start button edge.
    pub pause_pressed: bool,
    /// Debug-overlay toggle edge.
    pub toggle_debug_pressed: bool,
    /// Menu navigation edges.
    pub menu_left: bool,
    pub menu_right: bool,
    pub menu_up: bool,
    pub menu_down: bool,
    /// Accept key or button edge.
    pub confirm_pressed: bool,
    /// Pointer interaction changes on the game-over menu buttons.
    pub restart_button: Option<ButtonInteraction>,
    pub quit_button: Option<ButtonInteraction>,
    /// Pointer interaction changes on upgrade icons, by upgrade id.
    pub upgrade_icons: Vec<(usize, ButtonInteraction)>,
}

impl InputFrame {
    /// Analog deflection stays within one unit per axis, and one tick
    /// reports at most as many icon interactions as the catalog bound.
    pub open spec fn wf(self) -> bool {
        &&& (match self.analog {
            Option::Some(v) => -1000 <= v.x <= 1000 && -1000 <= v.y <= 1000,
            Option::None => true,
        })
        &&& self.upgrade_icons@.len() <= 1000
    }

    /// A frame with nothing held and nothing pressed.
    pub fn idle() -> (r: InputFrame)
        ensures
            r.up_held == false,
            r.down_held == false,
            r.left_held == false,
            r.right_held == false,
            r.analog is None,
            r.pause_pressed == false,
            r.toggle_debug_pressed == false,
            r.menu_left == false,
            r.menu_right == false,
            r.menu_up == false,
            r.menu_down == false,
            r.confirm_pressed == false,
            r.restart_button is None,
            r.quit_button is None,
            r.upgrade_icons@ =~= Seq::<(usize, ButtonInteraction)>::empty(),
            r.wf(),
    {
        InputFrame {
            up_held: false,
            down_held: false,
            left_held: false,
            right_held: false,
            analog: Option::None,
            pause_pressed: false,
            toggle_debug_pressed: false,
            menu_left: false,
            menu_right: false,
            menu_up: false,
            menu_down: false,
            confirm_pressed: false,
            restart_button: Option::None,
            quit_button: Option::None,
            upgrade_icons: Vec::new(),
        }
    }
}

} // verus!
