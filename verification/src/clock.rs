use vstd::prelude::*;

verus! {

/// The nanoseconds from the time `last` to the time `now`, both read from
/// one clock that does not run backwards; zero where `now` is not later.
pub open spec fn elapsed(last: u64, now: u64) -> u64 {
    if now >= last {
        (now - last) as u64
    } else {
        0
    }
}

/// Computes `elapsed`.
pub fn since(last: u64, now: u64) -> (delta: u64)
    ensures
        delta == elapsed(last, now),
{
    if now >= last {
        now - last
    } else {
        0
    }
}

} // verus!
