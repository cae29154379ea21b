use vstd::prelude::*;

verus! {

/// One proposed fact about a property or event definition.
///
/// An update is carried by its identity: two updates that describe the same
/// fact have the same `id`, and deduplication goes by it alone.
#[derive(Clone, Copy, Debug, PartialEq, Eq, Hash, Structural)]
pub struct Update {
    pub id: u64,
}

impl Update {
    pub fn new(id: u64) -> (u: Update)
        ensures
            u.id == id,
    {
        Update { id }
    }
}

/// The identities of a sequence of updates, in order.
pub open spec fn ids(updates: Seq<Update>) -> Seq<u64> {
    updates.map_values(|u: Update| u.id)
}

/// A parsed queue message, as the updates that it proposes.
pub struct Event {
    pub candidates: Vec<Update>,
}

/// The updates that an event with these candidates contributes: all of them,
/// unless they are more than the skip threshold, in which case the event is
/// skipped and contributes none.
pub open spec fn contributed(candidates: Seq<Update>, skip_threshold: usize) -> Seq<Update> {
    if candidates.len() <= skip_threshold {
        candidates
    } else {
        Seq::empty()
    }
}

impl Event {
    /// The updates of this event, never more than `skip_threshold`.
    pub fn into_updates(self, skip_threshold: usize) -> (updates: Vec<Update>)
        ensures
            updates@ == contributed(self.candidates@, skip_threshold),
            updates@.len() <= skip_threshold,
    {
        if self.candidates.len() <= skip_threshold {
            self.candidates
        } else {
            Vec::new()
        }
    }
}

} // verus!
