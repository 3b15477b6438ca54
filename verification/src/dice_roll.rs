use vstd::prelude::*;

verus! {

/// Relies on `rand::Rng::gen_range` on `rand::thread_rng()`: returns a value
/// drawn uniformly from the half-open range `0..n`; panics only when the
/// range is empty, which the precondition rules out.
#[verifier::external_body]
pub(crate) fn random_below(n: usize) -> (r: usize)
    requires
        n > 0,
    ensures
        r < n,
{
    rand::Rng::gen_range(&mut rand::thread_rng(), 0..n)
}

/// Weighted coin: true with the given chance out of 100.
///
/// The draw itself is random, so only the degenerate chances have a
/// determined outcome: a chance of 100 or more always succeeds, a chance
/// of 0 or less never does.
pub fn dice_roll(chance_returning_true_in_100: i32) -> (b: bool)
    ensures
        chance_returning_true_in_100 >= 100 ==> b,
        chance_returning_true_in_100 <= 0 ==> !b,
{
    let roll: i32 = random_below(100) as i32 + 1;
    roll <= chance_returning_true_in_100
}

} // verus!
