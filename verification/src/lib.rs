//! Verified core of a terminal manager for Starship prompt profiles.

pub mod text;
pub mod render;
pub mod provider;
pub mod config;
pub mod profile;
pub mod bundle;
pub mod app;
pub mod event;
pub mod laws;
pub mod view;
pub mod locations;
