use vstd::prelude::*;

verus! {

/// Fetches Indeed jobs through a job client and saves them through a job saver.
pub struct IndeedJobFetcherService<FJ, JS> {
    job_client: FJ,
    job_saver: JS,
}

impl<FJ, JS> IndeedJobFetcherService<FJ, JS> {
    /// The job client.
    pub closed spec fn client(&self) -> FJ {
        self.job_client
    }

    /// The job saver.
    pub closed spec fn saver(&self) -> JS {
        self.job_saver
    }

    /// A service over a job client and a job saver.
    pub fn new(job_client: FJ, job_saver: JS) -> (r: Self)
        ensures
            r.client() == job_client,
            r.saver() == job_saver,
    {
        Self { job_client, job_saver }
    }

    /// The job client.
    pub fn job_client(&self) -> (r: &FJ)
        ensures
            *r == self.client(),
    {
        &self.job_client
    }

    /// The job saver.
    pub fn job_saver(&self) -> (r: &JS)
        ensures
            *r == self.saver(),
    {
        &self.job_saver
    }
}

} // verus!
