pub mod client;
pub mod config;
pub mod model;
pub mod mods;
pub mod process;
