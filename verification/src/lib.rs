//! Helpers for preparing a NetEase Minecraft development environment:
//! version numbers, pack manifests, configuration, paths and world data.

pub mod text;
pub mod version;
pub mod utils;
pub mod env;
pub mod config;
pub mod addon;
pub mod level;
