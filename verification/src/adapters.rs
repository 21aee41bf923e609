pub mod driven;
