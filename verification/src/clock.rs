use vstd::prelude::*;

verus! {

/// Relies on std::time::SystemTime::now: returns the wall-clock time, here
/// reduced to whole milliseconds since the Unix epoch. Nothing is promised
/// of the value: every caller must work with an arbitrary reading.
#[verifier::external_body]
pub(crate) fn now_millis() -> u64 {
    match std::time::SystemTime::now().duration_since(std::time::UNIX_EPOCH) {
        Ok(d) => d.as_millis() as u64,
        Err(_) => 0,
    }
}

} // verus!
