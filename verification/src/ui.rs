//! The text rules of the user interface.

pub mod app;
pub mod prompt_sections;
