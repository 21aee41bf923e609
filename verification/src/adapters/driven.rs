pub mod indeed_brightdata;
pub mod linkedin_brightdata;
pub mod snapshot_flow;
