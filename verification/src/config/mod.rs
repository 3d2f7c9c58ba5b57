//! Configuration: file locations, the settings model and its validation.
pub mod paths;
pub mod settings;
pub mod themes;
pub mod toml_merge;
