//! The ingestion-to-issuance pipeline of a property definitions service:
//! per-worker compaction of updates, filtering against a shared cache,
//! hand-off to a bounded channel, and the assembly of batches for issuance.

use vstd::prelude::*;

pub mod update;
pub mod compaction;
pub mod filter;
pub mod handoff;
pub mod worker;
pub mod coordinator;
pub mod limiter;

verus! {

/// What the service answers at its root and readiness endpoints.
pub fn index() -> (banner: &'static str)
    ensures
        banner@ == "property definitions service"@,
{
    "property definitions service"
}

} // verus!
