//! Fresh identities and the current time: values that differ from call to
//! call, so nothing is promised of them.

use crate::model::{ScanId, Timestamp};
use vstd::prelude::*;

verus! {

/// Calls `uuid::Uuid::new_v4` and takes the random identity as its 128 bits.
/// Two calls may give any two values.
#[verifier::external_body]
pub(crate) fn new_scan_id() -> (id: ScanId) {
    uuid::Uuid::new_v4().as_u128()
}

/// Calls `chrono::Utc::now` and takes the instant as milliseconds since the
/// Unix epoch. Nothing is promised of the clock.
#[verifier::external_body]
pub(crate) fn now_millis() -> (t: Timestamp) {
    chrono::Utc::now().timestamp_millis()
}

} // verus!
