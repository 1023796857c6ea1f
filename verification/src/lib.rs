//! A verified core for a discrete-time, grid-based snake simulation.
//!
//! The snake occupies an ordered chain of cells and advances one cell per
//! tick in the currently selected heading. Eating a food item grants one
//! growth credit, which lets the chain keep its tail for one shrink phase
//! and so grow by one cell. A fixed-period clock turns elapsed wall time
//! into discrete ticks, and a spawner keeps exactly one food item active,
//! replacing a consumed item with a fresh one at a random cell.

pub mod grid;
pub mod heading;
pub mod clock;
pub mod engine;
pub mod food;
pub mod state;

pub use grid::Position;
pub use heading::Direction;
pub use heading::DirectionController;
pub use clock::TickClock;
pub use engine::SnakeEngine;
pub use engine::StepResult;
pub use food::FoodItem;
pub use food::FoodSpawner;
pub use state::GameState;
