use vstd::prelude::*;
use ahash::AHashSet;
use ahash::RandomState;
use tokio::sync::mpsc::Sender;
use crate::update::{ids, Update};
use crate::compaction::{
    held, offer_outcome, set_contains, set_drain, set_insert, set_len, set_with_capacity, Offer,
    FLUSH_PERIOD_NANOS, RESERVE_LIMIT,
};
use crate::filter::{screen, FilterCache};
use crate::handoff::{after_try_send, try_send, Routed};

verus! {

/// How a run over the pending updates of a flush ended.
#[derive(Clone, Copy, Debug, PartialEq, Eq, Structural)]
pub enum Halt {
    /// Nothing is pending any more.
    Completed,
    /// The channel was full for this update: the caller sends it with a
    /// blocking send, then resumes the flush.
    Blocked(Update),
    /// The channel was closed when this update was sent: the worker stops.
    Closed(Update),
}

/// The account of one run over the pending updates.
#[derive(Clone, Copy, Debug, PartialEq, Eq, Structural)]
pub struct FlushSummary {
    /// Updates that the shared cache held.
    pub filtered: usize,
    /// Updates that the channel took without blocking.
    pub forwarded: usize,
    pub halt: Halt,
}

/// The state of one ingestion worker: the compaction set of the running
/// cycle, and the drained updates of a flush that are not yet dealt with.
pub struct Worker {
    set: AHashSet<u64, RandomState>,
    compaction_batch_size: usize,
    pending: Vec<Update>,
}

impl View for Worker {
    type V = Set<u64>;

    /// The identities in the compaction set.
    closed spec fn view(&self) -> Set<u64> {
        held(self.set)
    }
}

impl Worker {
    /// The drained updates of the running flush that are not yet dealt with.
    pub closed spec fn pending(&self) -> Seq<Update> {
        self.pending@
    }

    /// The size at which the compaction set is flushed.
    pub closed spec fn batch_size(&self) -> usize {
        self.compaction_batch_size
    }

    /// The compaction set is finite and no identity is pending twice.
    pub open spec fn wf(&self) -> bool {
        &&& self@.finite()
        &&& ids(self.pending()).no_duplicates()
    }

    /// A worker at the start of its first cycle. Room for the compaction
    /// batch size is reserved at once, up to `RESERVE_LIMIT`.
    pub fn new(compaction_batch_size: usize) -> (w: Worker)
        ensures
            w.wf(),
            w@ == Set::<u64>::empty(),
            w.pending() == Seq::<Update>::empty(),
            w.batch_size() == compaction_batch_size,
    {
        let reserve = if compaction_batch_size > RESERVE_LIMIT {
            RESERVE_LIMIT
        } else {
            compaction_batch_size
        };
        Worker { set: set_with_capacity(reserve), compaction_batch_size, pending: Vec::new() }
    }

    /// The number of pending updates.
    pub fn pending_count(&self) -> (n: usize)
        ensures
            n == self.pending().len(),
    {
        self.pending.len()
    }

    /// The number of updates in the compaction set.
    pub fn held_count(&self) -> (n: usize)
        requires
            self.wf(),
        ensures
            n == self@.len(),
    {
        set_len(&self.set)
    }

    /// Takes one update into the running cycle, `elapsed_nanos` nanoseconds
    /// after the last flush. An update that the set holds is compacted away
    /// and changes nothing. Any other is inserted; if the set has then
    /// reached the compaction batch size, or the cycle has lasted more than
    /// ten seconds, the whole set is drained into `pending` and the cycle
    /// ends. A worker takes no update while a flush is under way: nothing
    /// may be pending.
    pub fn offer(&mut self, update: Update, elapsed_nanos: u128) -> (offer: Offer)
        requires
            old(self).wf(),
            old(self).pending().len() == 0,
        ensures
            final(self).wf(),
            final(self).batch_size() == old(self).batch_size(),
            offer == offer_outcome(
                old(self)@,
                old(self).batch_size(),
                update.id,
                elapsed_nanos,
            ),
            offer == Offer::Compacted ==> final(self)@ == old(self)@,
            offer != Offer::Flush ==> final(self)@ == old(self)@.insert(update.id),
            offer != Offer::Flush ==> final(self).pending() == old(self).pending(),
            offer == Offer::Flush ==> final(self)@ == Set::<u64>::empty(),
            offer == Offer::Flush ==> ids(final(self).pending()).to_set() == old(self)@.insert(
                update.id,
            ),
            offer == Offer::Flush ==> final(self).pending().len() == old(self)@.insert(
                update.id,
            ).len(),
    {
        if set_contains(&self.set, update.id) {
            assert(old(self)@.insert(update.id) =~= old(self)@);
            return Offer::Compacted;
        }
        set_insert(&mut self.set, update.id);
        let n: usize = set_len(&self.set);
        if n >= self.compaction_batch_size || elapsed_nanos > FLUSH_PERIOD_NANOS {
            self.pending = set_drain(&mut self.set);
            proof {
                ids(self.pending()).unique_seq_to_set();
            }
            Offer::Flush
        } else {
            Offer::Held
        }
    }

    /// Deals with the last pending update: an update that the shared cache
    /// holds is filtered out; any other is marked in the cache and sent
    /// without blocking, and the result says how that went.
    pub fn flush_one(&mut self, cache: &FilterCache, channel: &Sender<Update>) -> (routed:
        Routed)
        requires
            old(self).wf(),
        ensures
            final(self).wf(),
            final(self)@ == old(self)@,
            final(self).batch_size() == old(self).batch_size(),
            old(self).pending().len() == 0 ==> routed == Routed::Idle && final(self).pending()
                == old(self).pending(),
            old(self).pending().len() > 0 ==> routed.subject() == Some(old(self).pending().last())
                && final(self).pending() == old(self).pending().drop_last(),
    {
        let popped = self.pending.pop();
        match popped {
            None => Routed::Idle,
            Some(update) => {
                proof {
                    lemma_prefix_keeps_distinct(old(self).pending(), self.pending().len() as int);
                }
                let cached = cache.holds(update.id);
                match screen(update, cached) {
                    None => Routed::Filtered(update),
                    Some(update) => {
                        cache.mark(update.id);
                        let outcome = try_send(channel, update);
                        after_try_send(update, outcome)
                    },
                }
            },
        }
    }

    /// Deals with the pending updates from the last one down, until none is
    /// left or one cannot be sent without blocking. Each update that this
    /// call has dealt with has left `pending`; the one that halted the run
    /// is the last that left.
    pub fn flush_pending(&mut self, cache: &FilterCache, channel: &Sender<Update>) -> (summary:
        FlushSummary)
        requires
            old(self).wf(),
        ensures
            final(self).wf(),
            final(self)@ == old(self)@,
            final(self).batch_size() == old(self).batch_size(),
            final(self).pending().len() <= old(self).pending().len(),
            final(self).pending() == old(self).pending().take(final(self).pending().len() as int),
            summary.filtered + summary.forwarded + (if summary.halt == Halt::Completed {
                0int
            } else {
                1int
            }) == old(self).pending().len() - final(self).pending().len(),
            summary.halt == Halt::Completed ==> final(self).pending().len() == 0,
            summary.halt != Halt::Completed ==> final(self).pending().len() < old(
                self,
            ).pending().len() && (summary.halt == Halt::Blocked(
                old(self).pending()[final(self).pending().len() as int],
            ) || summary.halt == Halt::Closed(
                old(self).pending()[final(self).pending().len() as int],
            )),
    {
        let mut filtered: usize = 0;
        let mut forwarded: usize = 0;
        let total: usize = self.pending.len();
        while self.pending.len() > 0
            invariant
                self.wf(),
                self@ == old(self)@,
                self.batch_size() == old(self).batch_size(),
                self.pending().len() <= old(self).pending().len(),
                self.pending() == old(self).pending().take(self.pending().len() as int),
                total == old(self).pending().len(),
                filtered + forwarded == total - self.pending().len(),
            decreases self.pending().len(),
        {
            let routed = self.flush_one(cache, channel);
            match routed {
                Routed::Idle => {},
                Routed::Filtered(_) => {
                    filtered = filtered + 1;
                },
                Routed::Forwarded(_) => {
                    forwarded = forwarded + 1;
                },
                Routed::Blocked(update) => {
                    return FlushSummary { filtered, forwarded, halt: Halt::Blocked(update) };
                },
                Routed::Closed(update) => {
                    return FlushSummary { filtered, forwarded, halt: Halt::Closed(update) };
                },
            }
        }
        FlushSummary { filtered, forwarded, halt: Halt::Completed }
    }
}

/// A prefix of a sequence of updates with distinct identities has distinct
/// identities.
pub proof fn lemma_prefix_keeps_distinct(updates: Seq<Update>, n: int)
    requires
        ids(updates).no_duplicates(),
        0 <= n <= updates.len(),
    ensures
        ids(updates.take(n)).no_duplicates(),
{
    assert forall|i: int, j: int|
        0 <= i < ids(updates.take(n)).len() && 0 <= j < ids(updates.take(n)).len() && i
            != j implies ids(updates.take(n))[i] != ids(updates.take(n))[j] by {
        assert(ids(updates.take(n))[i] == ids(updates)[i]);
        assert(ids(updates.take(n))[j] == ids(updates)[j]);
    }
}

/// Within one flush no update is forwarded twice: any two of a worker's
/// pending updates differ in their identity, and a flush deals with each
/// pending update once.
pub proof fn lemma_flush_forwards_once(worker: Worker, i: int, j: int)
    requires
        worker.wf(),
        0 <= i < j < worker.pending().len(),
    ensures
        worker.pending()[i].id != worker.pending()[j].id,
        worker.pending()[i] != worker.pending()[j],
{
    assert(ids(worker.pending())[i] == worker.pending()[i].id);
    assert(ids(worker.pending())[j] == worker.pending()[j].id);
}

} // verus!
