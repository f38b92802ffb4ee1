//! Gameplay simulation of a top-down action game: player state machine,
//! enemy seek and spawning, projectiles, damage and death, item pickup and
//! stats, and camera follow. Positions are integers in milli-pixels,
//! velocities in milli-pixels per second and times in microseconds.
pub mod geometry;
pub mod timer;
pub mod input;
pub mod items;
pub mod projectile;
pub mod enemy;
pub mod player;
pub mod game;
pub mod camera;
pub mod pause;
pub mod settings;
