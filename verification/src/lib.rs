//! Shelf: the state, rules and validation behind a desktop shelf of shell
//! commands and scripts, organised in groups.

pub mod app;
pub mod components;
pub mod data;
pub mod screens;
pub mod services;
pub mod ui;
pub mod utils;
