//! Client-side control of remote audio workers over a shared message bus.
//!
//! A [`Charcoal`] registry owns one [`PlayerObject`] per guild. A player
//! turns requests (join, play, pause, seek, ...) into commands for the bus
//! and consumes the single reply that an awaited request may receive. The
//! functions of [`background::processor`] decide what happens to each
//! payload read from the bus and to each command on its way out; the
//! registry drops the players whose worker has gone away.
//!
//! Nothing here performs I/O: the caller owns the bus connection and the
//! tasks, hands in what it received and carries out what is handed back.

use vstd::prelude::*;

pub mod actions;
pub mod background;
pub mod ipc;
pub mod protocol;
pub mod registry;
pub mod session;

pub use crate::actions::channel_manager::{ChannelManager, CreateJobError};
pub use crate::actions::player::Player;
pub use crate::actions::track_manager::{TrackAction, TrackActionError, TrackManager};
pub use crate::ipc::{FromBackgroundData, FromMainData, IPCData};
pub use crate::registry::{Charcoal, Eviction, EvictionCause};
pub use crate::session::{Awaited, Delivery, Phase, PlayerObject};

verus! {

/// Paths of the TLS material used to reach the brokers.
#[derive(Clone)]
pub struct SSLConfig {
    /// Path to the SSL key file.
    pub ssl_key: String,
    /// Path to the SSL CA file.
    pub ssl_ca: String,
    /// Path to the SSL certificate file.
    pub ssl_cert: String,
}

/// User name and password for the brokers.
#[derive(Clone)]
pub struct SASLConfig {
    /// Kafka user name.
    pub kafka_username: String,
    /// Kafka password.
    pub kafka_password: String,
}

/// Settings of one client instance.
#[derive(Clone)]
pub struct CharcoalConfig {
    /// TLS settings; `None` leaves TLS off.
    pub ssl: Option<SSLConfig>,
    /// Password authentication; `None` leaves it off.
    pub sasl: Option<SASLConfig>,
    /// Topic on which the workers listen and answer.
    pub kafka_topic: String,
}

} // verus!
