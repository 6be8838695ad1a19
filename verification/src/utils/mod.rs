//! Helpers shared by the crawler's components.

pub mod text;
pub mod url;
