//! The wall clock.
use vstd::prelude::*;
use std::time::{SystemTime, UNIX_EPOCH};

verus! {

/// Relies on `SystemTime::now` and `duration_since(UNIX_EPOCH)`: the seconds
/// since 1970-01-01 UTC (0 for a clock set before then). Nothing is known of
/// the value, which changes from call to call.
#[verifier::external_body]
pub fn get_now() -> u64 {
    match SystemTime::now().duration_since(UNIX_EPOCH) {
        Ok(d) => d.as_secs(),
        Err(_) => 0,
    }
}

} // verus!
