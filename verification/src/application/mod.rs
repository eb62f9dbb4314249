pub mod add_to;
pub mod create;
pub mod delete;
pub mod events;
pub mod extract;
pub mod new_file;
pub mod new_folder;
pub mod open;
pub mod open_entry;
pub mod preview;
pub mod rename;
