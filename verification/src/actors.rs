pub mod driven;
pub mod driving;
