//! Engines that work together: one is the host, the others join it.
pub mod config;
pub mod contacts;
pub mod host;
pub mod laws;
pub mod mode;
pub mod proxy;
pub mod slave;
pub mod tunnel;
