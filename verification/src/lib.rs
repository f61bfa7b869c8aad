pub mod args;
pub mod catalog;
pub mod download;
pub mod errors;
pub mod manifest;
pub mod store;
