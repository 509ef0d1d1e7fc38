//! The protocol with the language model: what it is asked and what it answers.
pub mod action;
pub mod answer;
pub mod beat;
pub mod capture;
pub mod compress;
pub mod describing;
pub mod incoming;
pub mod introducing;
pub mod laws;
pub mod markdown;
pub mod output;
pub mod parser;
pub mod reading;
pub mod records;
pub mod render;
pub mod schema;
pub mod showing;
pub mod template;

pub use self::action::{Action, ActionRecord};
pub use self::parser::{
    parse_actions, parse_single_action_chunk, post_process_action, strip_markdown_code_block,
};
pub use self::template::safe_render;
