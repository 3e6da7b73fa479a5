//! Core logic of a small 2D slingshot physics sandbox.
//!
//! The library holds the pieces of the game that are pure logic: the
//! slingshot controller that maps pointer drags to a launch impulse, the
//! settle detector that counts simulation ticks and fingerprints the final
//! resting state, the fixed-point decimal formatting that the fingerprint is
//! built from, and the level placement rules. Coordinates are carried in
//! milli-units (one thousandth of a world unit), which makes the
//! three-decimal rounding of the fingerprint exact.

pub mod decimal;
pub mod game;
pub mod geom;
pub mod level;
pub mod physics;
pub mod resources;
pub mod systems;
pub mod ui;
