//! A turmite: a two-state agent that walks a grid of binary cells, flipping
//! cells and turning according to a fixed decision table.

pub mod decision;
pub mod orientation;
pub mod render;
pub mod turmite;

pub use decision::{Decision, DecisionTable, CATALOG_LEN};
pub use orientation::{Orientation, Rotate};
pub use render::{Color, Fill};
pub use turmite::Turmite;
