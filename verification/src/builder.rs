pub mod config;
pub mod utils;
pub mod markdown;
