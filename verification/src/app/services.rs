pub mod indeed_job;
pub mod indeed_snapshot;
pub mod job;
pub mod linkedin_snapshot;
pub mod snapshot;
