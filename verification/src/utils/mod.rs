pub mod text;
pub mod config;
pub mod password;
