use vstd::prelude::*;

use rand::rngs::StdRng;
use rand::Rng;

verus! {

/// The randomness a roll consumes, handed in by the caller so that a roll is
/// reproducible from a known sequence of draws.
pub trait RandomSource {
    /// A uniform value of `0..bound`.
    fn below(&mut self, bound: u128) -> (r: u128)
        requires
            bound > 0,
        ensures
            r < bound,
    ;

    /// `true` with probability `num / den`: never for a chance of zero, always
    /// for a chance of one.
    fn ratio(&mut self, num: u32, den: u32) -> (r: bool)
        requires
            0 < den,
            num <= den,
        ensures
            num == 0 ==> !r,
            num == den ==> r,
    ;
}

#[verifier::external_type_specification]
#[verifier::external_body]
pub struct ExStdRng(StdRng);

/// Relies on rand::Rng::gen_range: a value of the half-open range it is given,
/// which must not be empty.
#[verifier::external_body]
fn draw_below(rng: &mut StdRng, bound: u128) -> (r: u128)
    requires
        bound > 0,
    ensures
        r < bound,
{
    rng.gen_range(0..bound)
}

/// Relies on rand::Rng::gen_ratio: `true` with chance `num / den`, always
/// `false` for `num == 0` and always `true` for `num == den`; it panics when
/// `den == 0` or `num > den`.
#[verifier::external_body]
fn draw_ratio(rng: &mut StdRng, num: u32, den: u32) -> (r: bool)
    requires
        0 < den,
        num <= den,
    ensures
        num == 0 ==> !r,
        num == den ==> r,
{
    rng.gen_ratio(num, den)
}

impl RandomSource for StdRng {
    fn below(&mut self, bound: u128) -> (r: u128) {
        draw_below(self, bound)
    }

    fn ratio(&mut self, num: u32, den: u32) -> (r: bool) {
        draw_ratio(self, num, den)
    }
}

} // verus!
