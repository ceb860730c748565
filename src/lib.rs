//! Keeps a small build configuration (mode, output path, entry names) and
//! renders from it the configuration file of a JavaScript bundler.

pub mod command;
pub mod config;
pub mod text;
