pub mod actors;
pub mod adapters;
pub mod app;
pub mod json;
pub mod text;
