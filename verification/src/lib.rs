//! Gameplay simulation and menu-state core of a top-down snake arcade game.
//!
//! All geometry and economy values are fixed-point integers with 1000
//! sub-units per world unit, so that every rule of the simulation can be
//! stated and proved exactly. Rendering, input devices, the frame clock and
//! the persisted high-score cell are outside collaborators: the core takes
//! plain values from them each tick and hands plain values back.

pub mod constants;
pub mod events;
pub mod game;
pub mod input;
pub mod isqrt;
pub mod locomotion;
pub mod menu;
pub mod economy;
pub mod rng;
pub mod score;
pub mod text;
pub mod tail;
pub mod upgrades;
pub mod vec2;
pub mod world;
