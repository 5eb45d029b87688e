//! The schedule of delays between connection attempts.
//!
//! The schedule comes from the `backon` crate. Its type is opaque here: the
//! contracts below say what its source shows of a constant backoff that was
//! built without jitter, and nothing in this file is proved.

use backon::BackoffBuilder;
use vstd::prelude::*;

verus! {

#[verifier::external_type_specification]
#[verifier::external_body]
pub struct ExConstantBackoff(backon::ConstantBackoff);

/// Whether a backoff was built with a maximum number of delays and without
/// jitter, so that it hands out its delay as it is and runs out.
pub uninterp spec fn runs_out(backoff: backon::ConstantBackoff) -> bool;

/// The delays, in milliseconds, that a backoff which runs out will still hand
/// out, in the order in which it hands them out.
pub uninterp spec fn pending_delays(backoff: backon::ConstantBackoff) -> Seq<u64>;

/// Builds a backoff with `backon::ConstantBuilder`: `with_delay`,
/// `with_max_times`, then `build`, and no jitter.
///
/// Such a backoff hands out the same delay `max_times` times and then stops.
#[verifier::external_body]
pub(crate) fn constant_backoff(max_times: usize, delay_ms: u64) -> (backoff:
    backon::ConstantBackoff)
    ensures
        runs_out(backoff),
        pending_delays(backoff) == Seq::new(max_times as nat, |i: int| delay_ms),
{
    backon::ConstantBuilder::new()
        .with_delay(std::time::Duration::from_millis(delay_ms))
        .with_max_times(max_times)
        .build()
}

/// Calls `Iterator::next` of `backon::ConstantBackoff`, on a backoff that
/// runs out. With jitter the call adds to the delay and can overflow, so such
/// a backoff is left out.
///
/// The backoff goes on being one that runs out. While delays are pending it
/// hands out the first of them, in milliseconds, and keeps the rest. Once
/// none is pending it returns `None` and stays as it is.
#[verifier::external_body]
pub(crate) fn next_delay(backoff: &mut backon::ConstantBackoff) -> (delay_ms: Option<u64>)
    requires
        runs_out(*old(backoff)),
    ensures
        runs_out(*final(backoff)),
        pending_delays(*old(backoff)).len() == 0 ==> delay_ms is None && pending_delays(
            *final(backoff),
        ) == pending_delays(*old(backoff)),
        pending_delays(*old(backoff)).len() > 0 ==> delay_ms == Some(
            pending_delays(*old(backoff))[0],
        ) && pending_delays(*final(backoff)) == pending_delays(*old(backoff)).drop_first(),
{
    match backoff.next() {
        Some(delay) => Some(delay.as_millis() as u64),
        None => None,
    }
}

} // verus!
