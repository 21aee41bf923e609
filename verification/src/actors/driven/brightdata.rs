pub mod client;
pub mod jobs;
pub mod snapshots;
