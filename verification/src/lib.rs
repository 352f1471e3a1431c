//! Verified core of a generator of CI/CD pipeline configurations.
pub mod builders;
pub mod config;
pub mod detection;
pub mod diff;
pub mod docker_preset;
pub mod documents;
pub mod editor;
pub mod error;
pub mod go_preset;
pub mod matching;
pub mod models;
pub mod presets;
pub mod preview;
pub mod python_preset;
pub mod ron_types;
pub mod rust_preset;
pub mod text;
pub mod yaml;
