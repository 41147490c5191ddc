use vstd::prelude::*;

verus! {

/// Relies on uuid::Uuid::new_v4 for a freshly drawn random identifier,
/// carried as its 128-bit value. Nothing is promised of the result: the
/// store's uniqueness check is the sole defence against a collision. The
/// draw fails rather than returns if the operating system's random source
/// does.
#[verifier::external_body]
pub(crate) fn fresh_uuid() -> u128 {
    uuid::Uuid::new_v4().as_u128()
}

/// Relies on chrono::Utc::now().timestamp() for the current Unix time in
/// seconds. Nothing is promised of the result. A system clock standing
/// before the Unix epoch makes the call itself fail rather than return —
/// an environmental failure, like the random source failing above.
#[verifier::external_body]
fn now_unix() -> i64 {
    chrono::Utc::now().timestamp()
}

/// The current Unix time as an unsigned count of seconds. The wrapper
/// promises nothing of its range, so a negative value — which the clock
/// call does not actually produce — is mapped to zero here rather than
/// taken on trust.
pub(crate) fn current_time() -> u64 {
    let t = now_unix();
    if t < 0 {
        0
    } else {
        t as u64
    }
}

} // verus!
