use vstd::prelude::*;

use crate::state::RegularState;

verus! {

/// The denominator of every probability in this crate: a chance of `p` stands
/// for `p / CHANCE_SCALE`, so `CHANCE_SCALE` itself is certainty.
pub const CHANCE_SCALE: u32 = 1_000_000;

/// The base chances of the two high rarities, in parts per million.
#[derive(Debug, Clone, Copy, PartialEq, Eq, Structural)]
pub struct Weights {
    pub s5: u32,
    pub s4: u32,
}

/// When pity sets in: the top-tier odds start to climb after `s5_start` rolls
/// and reach certainty at `s5_end`; the second-tier odds climb from `s4_proc`.
#[derive(Debug, Clone, Copy, PartialEq, Eq, Structural)]
pub struct Pity {
    pub s5_start: u32,
    pub s5_end: u32,
    pub s4_proc: u32,
}

/// The cumulative boundaries of one roll, as fractions over `scale`: a draw
/// below `top / scale` is top tier, one below `top_and_second / scale` is
/// second tier, and anything else is third tier. Neither boundary is clamped,
/// so a boundary at or above `scale` is a certain drop.
#[derive(Debug, Clone, Copy, PartialEq, Eq, Structural)]
pub struct Distribution {
    pub top: u128,
    pub top_and_second: u128,
    pub scale: u128,
}

impl Pity {
    pub fn new(s5_start: u32, s5_end: u32, s4_proc: u32) -> (r: Self)
        ensures
            r.s5_start == s5_start,
            r.s5_end == s5_end,
            r.s4_proc == s4_proc,
    {
        Self { s5_start, s5_end, s4_proc }
    }

    /// The soft start does not lie past the hard cap.
    pub open spec fn wf(self) -> bool {
        self.s5_start <= self.s5_end
    }
}

/// The number of rolls over which the top-tier odds climb from their base to
/// certainty. Where soft start and hard cap coincide, the first roll past them
/// is already certain, which a ramp of one roll gives.
pub open spec fn ramp_len(pity: Pity) -> int {
    if pity.s5_start < pity.s5_end {
        pity.s5_end - pity.s5_start
    } else {
        1
    }
}

/// The top-tier odds, as a numerator over `CHANCE_SCALE * ramp_len(pity)`:
/// the base chance up to the soft start, then one equal step per roll past it,
/// each step a `ramp_len(pity)`-th of what the base chance lacks of certainty.
pub open spec fn top_odds(w: Weights, pity: Pity, state: RegularState) -> int {
    if state.since_s5 <= pity.s5_start {
        w.s5 * ramp_len(pity)
    } else {
        w.s5 * ramp_len(pity) + (CHANCE_SCALE - w.s5) * (state.since_s5 - pity.s5_start)
    }
}

/// The second-tier odds, as a numerator over `2 * CHANCE_SCALE`: the base
/// chance below the guarantee, then half of what it lacks of certainty added
/// for each roll from the guarantee on, the roll at the guarantee included.
pub open spec fn second_odds(w: Weights, pity: Pity, state: RegularState) -> int {
    if state.since_s4 < pity.s4_proc {
        2 * w.s4
    } else {
        2 * w.s4 + (CHANCE_SCALE - w.s4) * (state.since_s4 - pity.s4_proc + 1)
    }
}

/// The common denominator of both boundaries.
pub open spec fn odds_scale(pity: Pity) -> int {
    CHANCE_SCALE * ramp_len(pity) * (2 * CHANCE_SCALE)
}

/// The top-tier boundary over `odds_scale(pity)`.
pub open spec fn top_bound(w: Weights, pity: Pity, state: RegularState) -> int {
    top_odds(w, pity, state) * (2 * CHANCE_SCALE)
}

/// The boundary below which a draw is top or second tier, over `odds_scale(pity)`.
pub open spec fn top_and_second_bound(w: Weights, pity: Pity, state: RegularState) -> int {
    top_bound(w, pity, state) + second_odds(w, pity, state) * (CHANCE_SCALE * ramp_len(pity))
}

impl Weights {
    pub fn new(s5: u32, s4: u32) -> (r: Self)
        ensures
            r.s5 == s5,
            r.s4 == s4,
    {
        Self { s5, s4 }
    }

    /// Both chances lie between impossible and certain.
    pub open spec fn wf(self) -> bool {
        self.s5 <= CHANCE_SCALE && self.s4 <= CHANCE_SCALE
    }

    /// The real odds of each rarity once pity is taken into account, as two
    /// cumulative boundaries; the third tier takes what lies above the second.
    pub fn get_distribution(&self, pity: &Pity, state: &RegularState) -> (d: Distribution)
        requires
            self.wf(),
            pity.wf(),
        ensures
            d.scale == odds_scale(*pity),
            d.top == top_bound(*self, *pity, *state),
            d.top_and_second == top_and_second_bound(*self, *pity, *state),
            d.scale > 0,
    {
        let unit: u128 = CHANCE_SCALE as u128;
        let len: u128 = if pity.s5_start < pity.s5_end {
            (pity.s5_end - pity.s5_start) as u128
        } else {
            1
        };
        let a: u128 = self.s5 as u128;
        let c: u128 = self.s4 as u128;
        assert(a * len <= 1_000_000 * 0xffff_ffff) by (nonlinear_arith)
            requires
                a <= 1_000_000,
                len <= 0xffff_ffff,
        ;
        let s5_odds: u128 = if state.since_s5 <= pity.s5_start {
            a * len
        } else {
            let past: u128 = (state.since_s5 - pity.s5_start) as u128;
            assert((unit - a) * past <= 1_000_000 * 0xffff_ffff) by (nonlinear_arith)
                requires
                    unit - a <= 1_000_000,
                    past <= 0xffff_ffff,
            ;
            a * len + (unit - a) * past
        };
        let s4_odds: u128 = if state.since_s4 < pity.s4_proc {
            2 * c
        } else {
            let steps: u128 = (state.since_s4 - pity.s4_proc) as u128 + 1;
            assert((unit - c) * steps <= 1_000_000 * 0x1_0000_0000) by (nonlinear_arith)
                requires
                    unit - c <= 1_000_000,
                    steps <= 0x1_0000_0000,
            ;
            2 * c + (unit - c) * steps
        };
        assert(unit * len <= 1_000_000 * 0xffff_ffff) by (nonlinear_arith)
            requires
                unit == 1_000_000,
                len <= 0xffff_ffff,
        ;
        assert(s5_odds * (2 * unit) <= 0x20_0000_0000_0000 * 2_000_000) by (nonlinear_arith)
            requires
                unit == 1_000_000,
                s5_odds <= 0x20_0000_0000_0000,
        ;
        assert(s4_odds * (unit * len) <= 0x20_0000_0000_0000 * 0x20_0000_0000_0000)
            by (nonlinear_arith)
            requires
                s4_odds <= 0x20_0000_0000_0000,
                unit * len <= 0x20_0000_0000_0000,
        ;
        assert(unit * len * (2 * unit) <= 0x20_0000_0000_0000 * 2_000_000) by (nonlinear_arith)
            requires
                unit == 1_000_000,
                unit * len <= 0x20_0000_0000_0000,
        ;
        assert(unit * len * (2 * unit) > 0) by (nonlinear_arith)
            requires
                unit == 1_000_000,
                len >= 1,
        ;
        let top: u128 = s5_odds * (2 * unit);
        Distribution {
            top,
            top_and_second: top + s4_odds * (unit * len),
            scale: unit * len * (2 * unit),
        }
    }
}

/// Up to the soft start the top-tier boundary is the base top-tier chance
/// exactly: `top / scale == s5 / CHANCE_SCALE`.
pub proof fn lemma_base_top_odds(w: Weights, pity: Pity, state: RegularState)
    requires
        w.wf(),
        pity.wf(),
        state.since_s5 <= pity.s5_start,
    ensures
        top_bound(w, pity, state) * CHANCE_SCALE == w.s5 * odds_scale(pity),
{
    let len = ramp_len(pity);
    assert(w.s5 * len * (2 * 1_000_000) * 1_000_000 == w.s5 * (1_000_000 * len * (2
        * 1_000_000))) by (nonlinear_arith);
}

/// From the hard cap on, a top-tier drop is certain: the top-tier boundary
/// reaches the whole scale. The one roll count left out is a soft start equal
/// to the hard cap, reached exactly, where the odds are still the base chance.
pub proof fn lemma_hard_cap_certain(w: Weights, pity: Pity, state: RegularState)
    requires
        w.wf(),
        pity.wf(),
        state.since_s5 >= pity.s5_end,
        pity.s5_start < pity.s5_end || state.since_s5 > pity.s5_start,
    ensures
        top_bound(w, pity, state) >= odds_scale(pity),
{
    let len = ramp_len(pity);
    let a = w.s5 as int;
    let past = state.since_s5 - pity.s5_start;
    assert(past >= len);
    assert(a * len + (1_000_000 - a) * past >= 1_000_000 * len) by (nonlinear_arith)
        requires
            0 <= a <= 1_000_000,
            past >= len,
    ;
    assert(top_odds(w, pity, state) >= 1_000_000 * len);
    assert(top_odds(w, pity, state) * (2 * 1_000_000) >= 1_000_000 * len * (2 * 1_000_000))
        by (nonlinear_arith)
        requires
            top_odds(w, pity, state) >= 1_000_000 * len,
    ;
}

/// Below the guarantee the second-tier share of the boundaries is the base
/// second-tier chance exactly: `(top_and_second - top) / scale == s4 / CHANCE_SCALE`.
pub proof fn lemma_base_second_odds(w: Weights, pity: Pity, state: RegularState)
    requires
        w.wf(),
        pity.wf(),
        state.since_s4 < pity.s4_proc,
    ensures
        (top_and_second_bound(w, pity, state) - top_bound(w, pity, state)) * CHANCE_SCALE
            == w.s4 * odds_scale(pity),
{
    let len = ramp_len(pity);
    assert(2 * w.s4 * (1_000_000 * len) * 1_000_000 == w.s4 * (1_000_000 * len * (2
        * 1_000_000))) by (nonlinear_arith);
}

} // verus!
