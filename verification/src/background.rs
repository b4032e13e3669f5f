//! The decisions of the task that talks to the bus.

pub mod processor;
