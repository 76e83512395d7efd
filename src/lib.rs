//! Conventional-commit message assistant: diff filtering, message
//! normalization, prompt construction and the interactive session logic.

pub mod text;
pub mod message;
pub mod diff_filter;
pub mod system;
pub mod prompts;
pub mod editor;
pub mod session;
pub mod generation;
pub mod manifest;
pub mod project;
pub mod update;
