pub mod ports;
pub mod services;
