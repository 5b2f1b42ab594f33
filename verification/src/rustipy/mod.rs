pub mod authorization;
pub mod config;
pub mod token;
