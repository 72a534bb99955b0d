//! Addon discovery and settings engine for a small game mod manager.
//!
//! The library decides; the program around it touches the file system,
//! reads the environment and starts processes.

pub mod json;
pub mod fields;
pub mod manifest;
pub mod registry;
pub mod settings;
pub mod launch;
pub mod state;
