//! Turn-based core of a grid role-playing game played in a terminal.
//!
//! The world is a registry of positioned cells seen from a player who stays at
//! the centre of the canvas: a move translates every cell instead of the
//! player. Each step resolves one command (a collision or a translation), then
//! picks up at most one takeable cell under the player, and narrates both in an
//! event log.
//!
//! The cells live in a `legion` world. What is assumed of `legion` is stated
//! on the few private functions of `registry` that call it; everything else is
//! proved from those statements.

pub mod cell;
pub mod events;
pub mod geometry;
pub mod inventory;
pub mod laws;
pub mod narration;
pub mod registry;
pub mod session;

pub use cell::{CellAccess, CellKind, Color, Direction, GameCell};
pub use events::{GameEvent, GameEvents};
pub use geometry::{Player, Viewport};
pub use inventory::Inventory;
pub use registry::{Entry, Registry};
pub use session::{Command, Session, SessionState, StepOutcome};
