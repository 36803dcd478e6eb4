//! The records that the engine reads and writes.
//!
//! Measurements (times, speeds, sensor channels) are held as signed integers
//! on a scale of the caller's choice, for instance thousandths of a second:
//! the engine compares and carries them and never calculates with them.
//! Instants are microseconds since the Unix epoch.

pub mod auth;
pub mod challenge;
pub mod friendship;
pub mod post;
pub mod route;
pub mod score;
pub mod sensor_data;
pub mod user;
