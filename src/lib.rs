pub mod bus;
pub mod commands;
pub mod config;
pub mod downloads;
pub mod player;
pub mod requests;
