pub mod bit7z;
pub mod dialogs;
pub mod repository;
pub mod root_controller;
pub mod test_view;
pub mod views;
pub mod archive_vm;
pub mod events;
pub mod menus;
pub mod progress;
pub mod properties;
pub mod preview_vm;
