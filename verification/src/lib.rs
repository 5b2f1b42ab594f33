pub mod utils;
pub mod text;
pub mod auth;
pub mod rustipy;
pub mod types;
pub mod user_config;
pub mod utility;
pub mod app;
pub mod keybinds;
pub mod oauth;
