//! Alice Engine: the decision logic of a long-running agent runtime.
//!
//! Everything here is a function from plain values to plain values (or a state
//! machine from state and event to next state and action); the surrounding
//! program performs the input and output.
pub mod action;
pub mod agent;
pub mod api;
pub mod bindings;
pub mod chat;
pub mod clock;
pub mod codec;
pub mod external;
pub mod float_bits;
pub mod guardian;
pub mod hub;
pub mod inference;
pub mod laws;
pub mod legacy;
pub mod logging;
pub mod messages;
pub mod model;
pub mod persist;
pub mod registry;
pub mod startup;
pub mod stream;
pub mod text;
pub mod util;
