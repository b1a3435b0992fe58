use vstd::prelude::*;

verus! {

/// Relies on rand's `Rng::gen_range` over `thread_rng`: it returns a value
/// uniformly drawn from the half-open range and panics only on an empty
/// range, which the precondition rules out. Nothing more is assumed of the
/// drawn value than its bounds.
#[verifier::external_body]
pub(crate) fn sample_range(low: u32, high: u32) -> (r: u32)
    requires
        low < high,
    ensures
        low <= r < high,
{
    rand::Rng::gen_range(&mut rand::thread_rng(), low..high)
}

} // verus!
