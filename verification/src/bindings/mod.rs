//! What binds the engine to the outside: its texts and its routes.
pub mod http;
pub mod i18n;
pub mod telling;
