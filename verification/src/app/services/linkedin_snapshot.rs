use vstd::prelude::*;

verus! {

/// Handles LinkedIn snapshots through a snapshot client.
pub struct LinkedinSnapshotService<SC> {
    snapshot_client: SC,
}

impl<SC> LinkedinSnapshotService<SC> {
    /// The snapshot client.
    pub closed spec fn client(&self) -> SC {
        self.snapshot_client
    }

    /// A service over a snapshot client.
    pub fn new(snapshot_client: SC) -> (r: Self)
        ensures
            r.client() == snapshot_client,
    {
        Self { snapshot_client }
    }

    /// The snapshot client.
    pub fn snapshot_client(&self) -> (r: &SC)
        ensures
            *r == self.client(),
    {
        &self.snapshot_client
    }
}

} // verus!
