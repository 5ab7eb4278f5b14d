//! Renders a year of per-day activity counts as a colored terminal grid.

pub mod color;
pub mod config;
pub mod date;
pub mod dono;
pub mod laws;
pub mod order;
pub mod text;

pub use config::{Colors, Config, ConfigError};
pub use dono::{Contribution, ContributionLevel, Dono, RenderError};
