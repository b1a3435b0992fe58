use vstd::prelude::*;

verus! {

/// Relies on chrono's `DateTime::from_timestamp` and the `Display` of its
/// date-time, which always renders a nonempty text; nothing else is assumed
/// of the current time. The system clock is read directly so that a reading
/// chrono cannot represent (before the epoch, or out of its range) falls
/// back to a fixed nonempty timestamp instead of panicking.
#[verifier::external_body]
pub(crate) fn utc_now_string() -> (r: String)
    ensures
        r@.len() > 0,
{
    let stamp = match std::time::SystemTime::now().duration_since(std::time::UNIX_EPOCH) {
        Ok(dur) => chrono::DateTime::from_timestamp(dur.as_secs() as i64, dur.subsec_nanos()),
        Err(_) => None,
    };
    match stamp {
        Some(t) => t.to_string(),
        None => String::from("1970-01-01 00:00:00 UTC"),
    }
}

} // verus!
