//! Building blocks of a desktop agent: the tool-calling loop, the records it
//! keeps, and the small text rules of its user interface.

pub mod agent;
pub mod presence;
pub mod startup;
pub mod text;
pub mod tools;
pub mod ui;
