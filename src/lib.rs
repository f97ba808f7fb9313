//! Installer engine for a mod-loader distribution: version selection,
//! maven coordinate resolution, the launch-descriptor compatibility patch,
//! the launcher profile store merge and the server launch-jar manifest.

pub mod error;
pub mod text;
pub mod maven;
pub mod version;
pub mod json;
pub mod compat;
pub mod profiles;
pub mod manifest;
pub mod server;
pub mod cli;
pub mod catalog;
pub mod installer;
