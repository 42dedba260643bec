pub mod config;
pub mod theme;
