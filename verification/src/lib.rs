//! Archive browsing and editing core: archive formats and handles, entry
//! listings, integrity testing, previews, preferences and the selection and
//! navigation state of an archive browser.

pub mod adapters;
pub mod application;
pub mod cli;
pub mod cli_flow;
pub mod domain;
pub mod instance;
pub mod laws;
pub mod sizes;
pub mod text;
