//! Carrying out the actions of an agent.
pub mod action_output;
pub mod execute;
pub mod laws;
pub mod telling;
