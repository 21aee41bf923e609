pub mod brightdata;
pub mod file_saver;
