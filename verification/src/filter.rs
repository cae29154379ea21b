use vstd::prelude::*;
use quick_cache::sync::Cache;
use crate::update::Update;

verus! {

/// The shared filter cache: a `quick_cache::sync::Cache` from identities to
/// a presence marker. It is bounded, shared by all workers, and free to evict
/// what it holds, so it answers approximately.
#[verifier::external_body]
pub struct FilterCache {
    inner: Cache<u64, ()>,
}

/// `Cache::new`: a cache for about `capacity` identities.
#[verifier::external_body]
fn cache_new(capacity: usize) -> (cache: FilterCache) {
    FilterCache { inner: Cache::new(capacity) }
}

/// `Cache::len`: the number of identities that the cache holds at this
/// moment. Nothing is promised of it.
#[verifier::external_body]
fn cache_len(cache: &FilterCache) -> (n: usize) {
    cache.inner.len()
}

impl FilterCache {
    /// An empty cache for about `capacity` identities.
    pub fn new(capacity: usize) -> (cache: FilterCache) {
        cache_new(capacity)
    }

    /// The number of identities that the cache holds at this moment.
    pub fn occupancy(&self) -> (n: usize) {
        cache_len(self)
    }

    /// `Cache::get`: whether the cache holds `id` at this moment. Other
    /// workers insert and the cache evicts, so nothing is promised of the
    /// answer.
    #[verifier::external_body]
    pub(crate) fn holds(&self, id: u64) -> (hit: bool) {
        self.inner.get(&id).is_some()
    }

    /// `Cache::insert`: marks `id` as seen. The cache may drop it again at
    /// any time, so nothing is promised of a later lookup.
    #[verifier::external_body]
    pub(crate) fn mark(&self, id: u64) {
        self.inner.insert(id, ())
    }
}

/// The filter's decision on one update, given what the shared cache said of
/// it: an update that the cache holds is never forwarded, any other always.
pub fn screen(update: Update, cached: bool) -> (forward: Option<Update>)
    ensures
        cached ==> forward == None::<Update>,
        !cached ==> forward == Some(update),
{
    if cached {
        None
    } else {
        Some(update)
    }
}

} // verus!
