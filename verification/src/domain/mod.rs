pub mod archive;
pub mod preferences;
pub mod repository;
