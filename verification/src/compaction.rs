use vstd::prelude::*;
use ahash::AHashSet;
use ahash::RandomState;
use crate::update::{ids, Update};

verus! {

/// `ahash::RandomState`, the hasher state of an `AHashSet`. Nothing is said of it.
#[verifier::external_type_specification]
#[verifier::external_body]
pub struct ExRandomState(ahash::RandomState);

/// `ahash::AHashSet`, a `std::collections::HashSet` with ahash's hasher.
#[verifier::external_type_specification]
#[verifier::external_body]
#[verifier::reject_recursive_types(T)]
#[verifier::reject_recursive_types(S)]
pub struct ExAHashSet<T, S>(ahash::AHashSet<T, S>);

/// The identities that a compaction set holds.
pub uninterp spec fn held(set: AHashSet<u64, RandomState>) -> Set<u64>;

/// The most room that a compaction set reserves before anything is inserted.
pub const RESERVE_LIMIT: usize = 1_048_576;

/// How long a compaction cycle may last before the next insertion flushes it,
/// in nanoseconds (ten seconds).
pub const FLUSH_PERIOD_NANOS: u128 = 10_000_000_000;

/// `AHashSet::with_capacity`: the new set is empty. The capacity is bounded
/// because the call fails where the table's size overflows.
#[verifier::external_body]
pub(crate) fn set_with_capacity(capacity: usize) -> (set: AHashSet<u64, RandomState>)
    requires
        capacity <= RESERVE_LIMIT,
    ensures
        held(set) == Set::<u64>::empty(),
{
    AHashSet::with_capacity(capacity)
}

/// `HashSet::contains`, reached through `AHashSet`'s `Deref`: whether the
/// set holds `id`.
#[verifier::external_body]
pub(crate) fn set_contains(set: &AHashSet<u64, RandomState>, id: u64) -> (found: bool)
    ensures
        found == held(*set).contains(id),
{
    set.contains(&id)
}

/// `HashSet::insert`, reached through `AHashSet`'s `DerefMut`: afterwards
/// the set holds `id` beside what it held, and the result says whether `id`
/// was new.
#[verifier::external_body]
pub(crate) fn set_insert(set: &mut AHashSet<u64, RandomState>, id: u64) -> (fresh: bool)
    ensures
        held(*final(set)) == held(*old(set)).insert(id),
        fresh == !held(*old(set)).contains(id),
{
    set.insert(id)
}

/// `HashSet::len`, reached through `AHashSet`'s `Deref`: the number of the
/// set's elements.
#[verifier::external_body]
pub(crate) fn set_len(set: &AHashSet<u64, RandomState>) -> (n: usize)
    ensures
        n == held(*set).len(),
{
    set.len()
}

/// `HashSet::drain`, reached through `AHashSet`'s `DerefMut`, collected:
/// every element comes out once, as an update of that identity, in an order
/// that is left open, and the set is empty afterwards.
#[verifier::external_body]
pub(crate) fn set_drain(set: &mut AHashSet<u64, RandomState>) -> (drained: Vec<Update>)
    ensures
        held(*final(set)) == Set::<u64>::empty(),
        ids(drained@).no_duplicates(),
        ids(drained@).to_set() == held(*old(set)),
{
    set.drain().map(Update::new).collect()
}

/// Whether a compaction set that has grown to `held_now` updates is flushed:
/// it has reached the compaction batch size, or more than ten seconds have
/// passed since the last flush.
pub open spec fn flush_due(held_now: nat, compaction_batch_size: usize, elapsed_nanos: u128) -> bool {
    held_now >= compaction_batch_size || elapsed_nanos > FLUSH_PERIOD_NANOS
}

/// What became of an update that was offered to a worker.
#[derive(Clone, Copy, Debug, PartialEq, Eq, Structural)]
pub enum Offer {
    /// The set held it already in this cycle: it is counted and dropped.
    Compacted,
    /// It was inserted and the cycle goes on.
    Held,
    /// It was inserted and the cycle ended: the set was drained to be flushed.
    Flush,
}

/// What becomes of an update of identity `id` that is offered to a set
/// holding `held_before`, `elapsed_nanos` nanoseconds after the last flush.
/// The flush condition is looked at only after an insertion.
pub open spec fn offer_outcome(
    held_before: Set<u64>,
    compaction_batch_size: usize,
    id: u64,
    elapsed_nanos: u128,
) -> Offer {
    if held_before.contains(id) {
        Offer::Compacted
    } else if flush_due(held_before.insert(id).len(), compaction_batch_size, elapsed_nanos) {
        Offer::Flush
    } else {
        Offer::Held
    }
}

/// What a set that held `start` holds once the identities of `offered` have
/// been offered to it in turn without a flush: an identity that is new is
/// inserted, one that is held is compacted away.
pub open spec fn held_after(start: Set<u64>, offered: Seq<u64>) -> Set<u64>
    decreases offered.len(),
{
    if offered.len() == 0 {
        start
    } else {
        held_after(start, offered.drop_last()).insert(offered.last())
    }
}

/// Compaction keeps each identity once, whatever the order and however often
/// it is offered: the set holds what it held before and every identity that
/// was offered, and nothing else.
pub proof fn lemma_compaction_is_a_set(start: Set<u64>, offered: Seq<u64>)
    ensures
        held_after(start, offered) == start.union(offered.to_set()),
        start.finite() ==> held_after(start, offered).finite(),
    decreases offered.len(),
{
    if offered.len() == 0 {
        assert(start.union(offered.to_set()) =~= start);
    } else {
        let front = offered.drop_last();
        lemma_compaction_is_a_set(start, front);
        assert forall|id: u64|
            offered.to_set().contains(id) <==> (front.to_set().contains(id) || id
                == offered.last()) by {
            if offered.to_set().contains(id) {
                let i = choose|i: int| 0 <= i < offered.len() && offered[i] == id;
                if i < front.len() {
                    assert(front[i] == id);
                }
            }
            if front.to_set().contains(id) {
                let i = choose|i: int| 0 <= i < front.len() && front[i] == id;
                assert(offered[i] == id);
            }
            if id == offered.last() {
                assert(offered[offered.len() - 1] == id);
            }
        }
        assert(held_after(start, offered) =~= start.union(offered.to_set()));
    }
}

/// Two runs of offers that name the same identities leave the same set,
/// whatever their order.
pub proof fn lemma_compaction_ignores_order(start: Set<u64>, one: Seq<u64>, other: Seq<u64>)
    requires
        one.to_set() == other.to_set(),
    ensures
        held_after(start, one) == held_after(start, other),
{
    lemma_compaction_is_a_set(start, one);
    lemma_compaction_is_a_set(start, other);
}

/// The first `k` of a sequence of distinct identities make a set of `k`
/// elements, and the next one is new to it.
pub proof fn lemma_distinct_prefix(offered: Seq<u64>, k: int)
    requires
        offered.no_duplicates(),
        0 <= k <= offered.len(),
    ensures
        offered.take(k).to_set().finite(),
        offered.take(k).to_set().len() == k,
        k < offered.len() ==> !offered.take(k).to_set().contains(offered[k]),
        k < offered.len() ==> offered.take(k + 1).to_set() == offered.take(k).to_set().insert(
            offered[k],
        ),
{
    let prefix = offered.take(k);
    assert(prefix.no_duplicates());
    prefix.unique_seq_to_set();
    if k < offered.len() {
        if prefix.to_set().contains(offered[k]) {
            let i = choose|i: int| 0 <= i < prefix.len() && prefix[i] == offered[k];
            assert(offered[i] == offered[k]);
        }
        let next = offered.take(k + 1);
        assert forall|id: u64| next.to_set().contains(id) <==> prefix.to_set().insert(
            offered[k],
        ).contains(id) by {
            if next.to_set().contains(id) {
                let i = choose|i: int| 0 <= i < next.len() && next[i] == id;
                if i < k {
                    assert(prefix[i] == id);
                }
            }
            if prefix.to_set().contains(id) {
                let i = choose|i: int| 0 <= i < prefix.len() && prefix[i] == id;
                assert(next[i] == id);
            }
            if id == offered[k] {
                assert(next[k] == id);
            }
        }
        assert(next.to_set() =~= prefix.to_set().insert(offered[k]));
    }
}

/// The size trigger. Of as many distinct updates as the compaction batch
/// size, offered one by one to a fresh set within ten seconds, each but the
/// last is held, so that the set then holds the updates offered so far; the
/// last one flushes, and the set that is flushed holds all of them.
pub proof fn lemma_size_trigger(
    offered: Seq<u64>,
    compaction_batch_size: usize,
    k: int,
    elapsed_nanos: u128,
)
    requires
        offered.no_duplicates(),
        offered.len() == compaction_batch_size,
        0 <= k < offered.len(),
        elapsed_nanos <= FLUSH_PERIOD_NANOS,
    ensures
        offered.take(0).to_set() == Set::<u64>::empty(),
        offer_outcome(offered.take(k).to_set(), compaction_batch_size, offered[k], elapsed_nanos)
            == if k + 1 == compaction_batch_size {
            Offer::Flush
        } else {
            Offer::Held
        },
        offered.take(k).to_set().insert(offered[k]) == offered.take(k + 1).to_set(),
        offered.take(k + 1).to_set().len() == k + 1,
        k + 1 == compaction_batch_size ==> offered.take(k + 1).to_set() == offered.to_set(),
{
    lemma_distinct_prefix(offered, k);
    lemma_distinct_prefix(offered, k + 1);
    assert(offered.take(0).to_set() =~= Set::<u64>::empty());
    if k + 1 == compaction_batch_size {
        assert(offered.take(k + 1) =~= offered);
    }
}

/// The time trigger. An update that is new to the set, offered more than ten
/// seconds after the last flush, flushes the set however few it holds.
pub proof fn lemma_time_trigger(
    held_before: Set<u64>,
    compaction_batch_size: usize,
    id: u64,
    elapsed_nanos: u128,
)
    requires
        !held_before.contains(id),
        elapsed_nanos > FLUSH_PERIOD_NANOS,
    ensures
        offer_outcome(held_before, compaction_batch_size, id, elapsed_nanos) == Offer::Flush,
{
}

} // verus!
