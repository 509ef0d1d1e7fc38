//! What the engine uses of the world: language models, shells, file summaries.
pub mod laws;
pub mod llm;
pub mod shell;
pub mod skeleton;
pub mod vision;
