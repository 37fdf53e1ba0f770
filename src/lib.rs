//! Per-frame simulation of a grid-based dot-collecting arcade game.
//!
//! Positions are whole pixels on a square grid of cells. Each tick resolves the
//! queued direction (only at grid-aligned positions), moves and clamps the
//! player, collects the dots in reach, checks for the win and advances the
//! mouth animation.

pub mod direction;
pub mod game;
pub mod geometry;
pub mod laws;

pub use direction::{direction_for_key, Direction, DirectionController};
pub use game::{collect_dots, initial_dots, play_again_button, GameModel, GameState};
pub use geometry::{is_point_in_rect, Point, Rect, Vector};
