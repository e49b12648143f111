use vstd::prelude::*;

use rand::distributions::Distribution;

verus! {

/// rand's per-thread generator, carried through as an opaque value.
#[verifier::external_type_specification]
#[verifier::external_body]
pub struct ExThreadRng(rand::rngs::ThreadRng);

/// Relies on `rand::thread_rng`: hands out the lazily seeded generator of the
/// current thread. Nothing is known of what it will draw.
#[verifier::external_body]
pub(crate) fn thread_source() -> (r: rand::rngs::ThreadRng) {
    rand::thread_rng()
}

/// Relies on `rand::distributions::Uniform::<i32>::from(lo..=hi)` and its
/// `sample`: the value lies in `lo..=hi`. `new_inclusive` asserts `lo <= hi`.
#[verifier::external_body]
pub(crate) fn draw_between(rng: &mut rand::rngs::ThreadRng, lo: i32, hi: i32) -> (r: i32)
    requires
        lo <= hi,
    ensures
        lo <= r <= hi,
{
    rand::distributions::Uniform::from(lo..=hi).sample(rng)
}

/// Relies on `rand::Rng::gen_range(0..n)` for `usize`: the value lies in
/// `0..n`. It asserts that the range is not empty.
#[verifier::external_body]
pub(crate) fn draw_below(rng: &mut rand::rngs::ThreadRng, n: usize) -> (r: usize)
    requires
        n > 0,
    ensures
        r < n,
{
    rand::Rng::gen_range(rng, 0..n)
}

} // verus!
