//! Text as sequences of characters: the vocabulary that all contracts on
//! strings are written in.
pub mod chars;
pub mod search;
pub mod space;
pub mod laws;
pub mod number;
pub mod bytes;
pub mod case;
pub mod path;
pub mod order;
pub mod parts;
