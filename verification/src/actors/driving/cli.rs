pub mod commands;
pub mod handler;
