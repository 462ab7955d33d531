//! A command-line weather client: provider selection, request construction
//! and command-line grammar, each stated and proved.

pub mod cli;
pub mod config;
pub mod env;
pub mod error;
pub mod percent;
pub mod providers;
pub mod text;
