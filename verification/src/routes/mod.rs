//! What each endpoint decides, from what the store returned to what is
//! answered and written.

pub mod auth;
pub mod sensor_data;
pub mod parcours;
pub mod challenges;
pub mod friends;
pub mod posts;
pub mod users;
