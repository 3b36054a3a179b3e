//! Selection, defaulting and validation of transport connection settings.

pub mod config;
pub mod error;
pub mod factory;
pub mod laws;
pub mod text;
