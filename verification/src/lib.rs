//! Placement engine for a floating window: unit algebra, geometry
//! resolution, placement state and the daemon's decision steps.
pub mod numeric;
pub mod text;
pub mod unit;
pub mod state;
pub mod geometry;
pub mod window;
pub mod daemon;
pub mod sway;
pub mod handover;
