use vstd::prelude::*;

use crate::records::StorageLog;

verus! {

/// Receives the storage accesses of every transaction of a batch, in execution
/// order, and keeps them as they came, one entry for each application. Reducing
/// them to their net effect is left to whoever reads them.
#[derive(Debug, PartialEq, Eq)]
pub struct StorageWritesDeduplicator {
    pub applied: Vec<Vec<StorageLog>>,
}

impl StorageWritesDeduplicator {
    /// What was applied so far: the storage accesses of each application, in the
    /// order of the applications.
    pub open spec fn applications(&self) -> Seq<Seq<StorageLog>> {
        self.applied@.map_values(|logs: Vec<StorageLog>| logs@)
    }

    pub fn new() -> (d: StorageWritesDeduplicator)
        ensures
            d.applications() == Seq::<Seq<StorageLog>>::empty(),
    {
        StorageWritesDeduplicator { applied: Vec::new() }
    }

    /// Takes the storage accesses of one transaction.
    pub fn apply(&mut self, logs: &Vec<StorageLog>)
        ensures
            final(self).applications() == old(self).applications().push(logs@),
    {
        let copy = logs.clone();
        self.applied.push(copy);
        assert(self.applications() =~= old(self).applications().push(logs@));
    }
}

} // verus!
