//! Renders a YAML description of environment variables as shell `export` lines.

pub mod config;
pub mod laws;
pub mod node;
pub mod render;
pub mod yaml;
