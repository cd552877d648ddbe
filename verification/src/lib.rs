pub mod config;
pub mod index;
pub mod server;
pub mod symbols;
pub mod text;
