use vstd::prelude::*;

verus! {

/// Relies on uuid's `Uuid::new_v4` and its hyphenated rendering: a fresh
/// random identifier, always 36 characters long.
#[verifier::external_body]
pub fn new_uuid_string() -> (r: String)
    ensures
        r@.len() == 36,
{
    uuid::Uuid::new_v4().to_string()
}

/// Relies on chrono's `Local::now` and `DelayedFormat`: the current local
/// time rendered as year-month-day hour:minute:second.  The value depends
/// on the clock, so nothing is promised of it.
#[verifier::external_body]
pub fn now_timestamp() -> (r: String) {
    chrono::Local::now().format("%Y-%m-%d %H:%M:%S").to_string()
}

} // verus!
