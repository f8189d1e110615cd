//! The decisions behind an interactive search over shell history: what a key
//! press does to the query and the selection, how the result list is laid
//! out, and which history entries a non-interactive search keeps.

pub mod text;
pub mod history;
pub mod filter;
pub mod clock;
pub mod state;
pub mod render;
pub mod layout;
pub mod laws;
pub mod date_text;
