use vstd::prelude::*;
use tokio::sync::Semaphore;

verus! {

/// `tokio::sync::Semaphore`, the pool of permits that bounds the issuance
/// transactions in flight.
#[verifier::external_type_specification]
#[verifier::external_body]
pub struct ExSemaphore(tokio::sync::Semaphore);

/// `Semaphore::available_permits`: the number of free permits at this
/// moment. Other tasks take and return permits, so nothing is promised of it.
#[verifier::external_body]
pub(crate) fn available_permits(limiter: &Semaphore) -> (available: usize) {
    limiter.available_permits()
}

/// How many permits of a limiter with `max_concurrent` permits are out, when
/// `available` of them are free.
pub fn saturation(max_concurrent: usize, available: usize) -> (in_flight: usize)
    requires
        available <= max_concurrent,
    ensures
        in_flight == max_concurrent - available,
{
    max_concurrent - available
}

/// What a count of `available` free permits says of a limiter that was made
/// with `max_concurrent` permits: how many are out, or nothing where more
/// are free than the limiter was made with.
pub open spec fn saturation_of(max_concurrent: usize, available: usize) -> Option<usize> {
    if available <= max_concurrent {
        Some((max_concurrent - available) as usize)
    } else {
        None
    }
}

/// The saturation for a count of free permits that may be out of range.
pub fn checked_saturation(max_concurrent: usize, available: usize) -> (out: Option<usize>)
    ensures
        out == saturation_of(max_concurrent, available),
{
    if available <= max_concurrent {
        Some(saturation(max_concurrent, available))
    } else {
        None
    }
}

/// The saturation of `limiter` at this moment, for a limiter that was made
/// with `max_concurrent` permits. The limiter is asked once for its free
/// permits, and the result is what that count says, whichever count it was:
/// a saturation of at most `max_concurrent`, or `None` where more permits
/// were free than that.
pub fn in_flight(limiter: &Semaphore, max_concurrent: usize) -> (out: Option<usize>)
    ensures
        exists|available: usize| out == saturation_of(max_concurrent, available),
        out matches Some(n) ==> n <= max_concurrent,
{
    let available = available_permits(limiter);
    checked_saturation(max_concurrent, available)
}

} // verus!
