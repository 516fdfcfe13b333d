//! Hanami Companion: follows osu! through the local tosu service, records
//! the plays it sees, and keeps a Hanami session signed in.
//!
//! The modules hold the companion's logic with its contracts: the state the
//! user interface shows (`app_state`), what the user's commands change
//! (`commands`), the tosu payload and its normalization (`tosu`), play
//! detection (`activity`), the Hanami sign-in (`auth`), the settings, the
//! tray menu, and the helpers that wrap outside crates (`clock`,
//! `web_address`).
pub mod activity;
pub mod app_state;
pub mod auth;
pub mod clock;
pub mod commands;
pub mod hanami;
pub mod renderer;
pub mod settings;
pub mod text;
pub mod tosu;
pub mod tray;
pub mod web_address;
pub mod ws_client;
