//! What a caller may ask of a player, grouped as the three traits that
//! [`crate::session::PlayerObject`] implements.

pub mod channel_manager;
pub mod player;
pub mod track_manager;
