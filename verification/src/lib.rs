//! OpenHub: device models, macros, per-game profiles and the input-hook
//! policy of a Logitech G HUB replacement, with the rules that decide what a
//! button does stated as contracts and proved.

pub mod action;
pub mod app_assets;
pub mod app_model;
pub mod button;
pub mod device_art;
pub mod diag_onboard;
pub mod executor;
pub mod geometry;
pub mod gesture;
pub mod hook;
pub mod hook_events;
pub mod macro_model;
pub mod macro_runs;
pub mod maps;
pub mod models;
pub mod onboard_feature;
pub mod onboard_profiles;
pub mod press;
pub mod profile;
pub mod runtime;
pub mod text;
pub mod timer;
