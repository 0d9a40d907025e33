use vstd::prelude::*;

use crate::odds::{
    lemma_hard_cap_certain, odds_scale, top_and_second_bound, top_bound, Pity, Weights,
    CHANCE_SCALE,
};
use crate::source::RandomSource;
use crate::state::{FeaturedState, RegularState};

verus! {

/// The rarity of a drop, and for the two high rarities whether it came from
/// the featured pool.
#[derive(Debug, Clone, Copy, PartialEq, Eq, Structural)]
pub enum RollKind {
    FiveStar,
    FiveStarFeatured,
    FourStar,
    FourStarFeatured,
    ThreeStar,
}

/// One pull: its rarity and the index of the item won within that rarity's pool.
#[derive(Debug, Clone, Copy, PartialEq, Eq, Structural)]
pub struct Roll {
    pub kind: RollKind,
    pub index: u32,
}

impl Roll {
    pub fn new(kind: RollKind, index: u32) -> (r: Self)
        ensures
            r.kind == kind,
            r.index == index,
    {
        Roll { kind, index }
    }
}

/// A drop of the top tier, featured or not.
pub open spec fn is_top(kind: RollKind) -> bool {
    kind == RollKind::FiveStar || kind == RollKind::FiveStarFeatured
}

/// A drop of the second tier, featured or not.
pub open spec fn is_second(kind: RollKind) -> bool {
    kind == RollKind::FourStar || kind == RollKind::FourStarFeatured
}

/// A drop from one of the featured pools.
pub open spec fn is_featured(kind: RollKind) -> bool {
    kind == RollKind::FiveStarFeatured || kind == RollKind::FourStarFeatured
}

/// The rarity of a drop with the featured distinction dropped.
pub open spec fn plain_tier(kind: RollKind) -> RollKind {
    match kind {
        RollKind::FiveStarFeatured => RollKind::FiveStar,
        RollKind::FourStarFeatured => RollKind::FourStar,
        _ => kind,
    }
}

/// The counters after a drop of the given tier: the counter of that tier
/// starts again at 1, every other one counts one more roll.
pub open spec fn regular_next(state: RegularState, kind: RollKind) -> RegularState {
    RegularState {
        since_s5: if is_top(kind) {
            1
        } else {
            (state.since_s5 + 1) as u32
        },
        since_s4: if is_second(kind) {
            1
        } else {
            (state.since_s4 + 1) as u32
        },
    }
}

/// The state of a featured pool after a drop. A featured drop restarts its own
/// counter, leaves the other one as it was and marks its tier as featured; a
/// standard drop of a high rarity advances the counters as in a regular pool
/// and marks its tier as not featured; a third-tier drop keeps both marks.
pub open spec fn featured_next(state: FeaturedState, kind: RollKind) -> FeaturedState {
    match kind {
        RollKind::FiveStarFeatured => FeaturedState {
            base: RegularState { since_s5: 1, since_s4: state.base.since_s4 },
            last_s5_featured: true,
            last_s4_featured: state.last_s4_featured,
        },
        RollKind::FourStarFeatured => FeaturedState {
            base: RegularState { since_s5: state.base.since_s5, since_s4: 1 },
            last_s5_featured: state.last_s5_featured,
            last_s4_featured: true,
        },
        RollKind::FiveStar => FeaturedState {
            base: regular_next(state.base, kind),
            last_s5_featured: false,
            last_s4_featured: state.last_s4_featured,
        },
        RollKind::FourStar => FeaturedState {
            base: regular_next(state.base, kind),
            last_s5_featured: state.last_s5_featured,
            last_s4_featured: false,
        },
        RollKind::ThreeStar => FeaturedState {
            base: regular_next(state.base, kind),
            last_s5_featured: state.last_s5_featured,
            last_s4_featured: state.last_s4_featured,
        },
    }
}

/// A pull pool: the odds of its rarities, its pity, and how many items each
/// rarity holds.
#[derive(Debug, Clone, Copy, PartialEq, Eq, Structural)]
pub struct RegularWish {
    pub weights: Weights,
    pub pity: Pity,
    pub five_star_count: u32,
    pub four_star_count: u32,
    pub three_star_count: u32,
}

impl RegularWish {
    /// Valid odds and pity, and no empty pool.
    pub open spec fn wf(self) -> bool {
        &&& self.weights.wf()
        &&& self.pity.wf()
        &&& self.five_star_count > 0
        &&& self.four_star_count > 0
        &&& self.three_star_count > 0
    }

    /// The number of items in the pool of a drop's tier.
    pub open spec fn pool_size(self, kind: RollKind) -> int {
        if is_top(kind) {
            self.five_star_count as int
        } else if is_second(kind) {
            self.four_star_count as int
        } else {
            self.three_star_count as int
        }
    }

    /// The tier that a draw of `0..odds_scale(self.pity)` falls in.
    pub open spec fn tier_at(self, state: RegularState, draw: int) -> RollKind {
        if draw < top_bound(self.weights, self.pity, state) {
            RollKind::FiveStar
        } else if draw < top_and_second_bound(self.weights, self.pity, state) {
            RollKind::FourStar
        } else {
            RollKind::ThreeStar
        }
    }

    /// The tier that a draw falls in, the draw taken over the scale of the
    /// distribution for `state`.
    pub fn tier(&self, state: &RegularState, draw: u128) -> (k: RollKind)
        requires
            self.weights.wf(),
            self.pity.wf(),
        ensures
            k == self.tier_at(*state, draw as int),
    {
        let dist = self.weights.get_distribution(&self.pity, state);
        if draw < dist.top {
            RollKind::FiveStar
        } else if draw < dist.top_and_second {
            RollKind::FourStar
        } else {
            RollKind::ThreeStar
        }
    }

    /// A third-tier drop: a random item of that pool, both counters advanced.
    pub fn make_s3_roll<R: RandomSource>(&self, state: RegularState, rng: &mut R) -> (r: (
        Roll,
        RegularState,
    ))
        requires
            self.three_star_count > 0,
            state.can_advance(),
        ensures
            r.0.kind == RollKind::ThreeStar,
            r.0.index < self.three_star_count,
            r.1 == regular_next(state, RollKind::ThreeStar),
    {
        let index: u32 = rng.below(self.three_star_count as u128) as u32;
        (
            Roll::new(RollKind::ThreeStar, index),
            RegularState::new(state.since_s5 + 1, state.since_s4 + 1),
        )
    }

    /// A second-tier drop: a random item of that pool, the second-tier counter
    /// restarted and the top-tier one advanced.
    pub fn make_s4_roll<R: RandomSource>(&self, state: RegularState, rng: &mut R) -> (r: (
        Roll,
        RegularState,
    ))
        requires
            self.four_star_count > 0,
            state.can_advance(),
        ensures
            r.0.kind == RollKind::FourStar,
            r.0.index < self.four_star_count,
            r.1 == regular_next(state, RollKind::FourStar),
    {
        let index: u32 = rng.below(self.four_star_count as u128) as u32;
        (Roll::new(RollKind::FourStar, index), RegularState::new(state.since_s5 + 1, 1))
    }

    /// A top-tier drop: a random item of that pool, the top-tier counter
    /// restarted and the second-tier one advanced.
    pub fn make_s5_roll<R: RandomSource>(&self, state: RegularState, rng: &mut R) -> (r: (
        Roll,
        RegularState,
    ))
        requires
            self.five_star_count > 0,
            state.can_advance(),
        ensures
            r.0.kind == RollKind::FiveStar,
            r.0.index < self.five_star_count,
            r.1 == regular_next(state, RollKind::FiveStar),
    {
        let index: u32 = rng.below(self.five_star_count as u128) as u32;
        (Roll::new(RollKind::FiveStar, index), RegularState::new(1, state.since_s4 + 1))
    }

    /// One pull: a uniform draw over the distribution's scale picks the tier,
    /// then a uniform item of that tier's pool is taken.
    pub fn roll<R: RandomSource>(&self, state: RegularState, rng: &mut R) -> (r: (
        Roll,
        RegularState,
    ))
        requires
            self.wf(),
            state.can_advance(),
        ensures
            exists|draw: int|
                0 <= draw < odds_scale(self.pity) && r.0.kind == self.tier_at(state, draw),
            0 <= r.0.index < self.pool_size(r.0.kind),
            r.1 == regular_next(state, r.0.kind),
            state.since_s5 >= self.pity.s5_end && (self.pity.s5_start < self.pity.s5_end
                || state.since_s5 > self.pity.s5_start) ==> r.0.kind == RollKind::FiveStar,
    {
        let dist = self.weights.get_distribution(&self.pity, &state);
        let draw: u128 = rng.below(dist.scale);
        proof {
            if state.since_s5 >= self.pity.s5_end && (self.pity.s5_start < self.pity.s5_end
                || state.since_s5 > self.pity.s5_start) {
                lemma_hard_cap_certain(self.weights, self.pity, state);
            }
        }
        let kind = self.tier(&state, draw);
        match kind {
            RollKind::FiveStar => self.make_s5_roll(state, rng),
            RollKind::FourStar => self.make_s4_roll(state, rng),
            _ => self.make_s3_roll(state, rng),
        }
    }
}

/// A pool with featured items: a regular pool, the sizes of the featured pools
/// of the two high rarities, and the chance in parts per million that a high
/// drop is featured when the last one of its tier already was.
#[derive(Debug, Clone, Copy, PartialEq, Eq, Structural)]
pub struct FeaturedWish {
    pub base: RegularWish,
    pub five_star_featured_count: u32,
    pub four_star_featured_count: u32,
    pub featured_chance: u32,
}

impl FeaturedWish {
    /// A valid regular pool, no empty featured pool, and a featured chance
    /// between impossible and certain.
    pub open spec fn wf(self) -> bool {
        &&& self.base.wf()
        &&& self.five_star_featured_count > 0
        &&& self.four_star_featured_count > 0
        &&& self.featured_chance <= CHANCE_SCALE
    }

    /// The number of items in the pool that a drop of this kind comes from.
    pub open spec fn pool_size(self, kind: RollKind) -> int {
        match kind {
            RollKind::FiveStarFeatured => self.five_star_featured_count as int,
            RollKind::FourStarFeatured => self.four_star_featured_count as int,
            _ => self.base.pool_size(kind),
        }
    }

    /// A third-tier drop, as in the regular pool; both featured marks are kept.
    pub fn make_s3_roll<R: RandomSource>(&self, state: FeaturedState, rng: &mut R) -> (r: (
        Roll,
        FeaturedState,
    ))
        requires
            self.base.three_star_count > 0,
            state.base.can_advance(),
        ensures
            r.0.kind == RollKind::ThreeStar,
            r.0.index < self.base.three_star_count,
            r.1 == featured_next(state, RollKind::ThreeStar),
    {
        let (roll, base) = self.base.make_s3_roll(state.base, rng);
        (roll, FeaturedState::new(base, state.last_s5_featured, state.last_s4_featured))
    }

    /// A second-tier drop. It is featured when the last second-tier drop was
    /// not, and otherwise when a draw with the featured chance succeeds.
    pub fn make_s4_roll<R: RandomSource>(&self, state: FeaturedState, rng: &mut R) -> (r: (
        Roll,
        FeaturedState,
    ))
        requires
            self.base.four_star_count > 0,
            self.four_star_featured_count > 0,
            self.featured_chance <= CHANCE_SCALE,
            state.base.can_advance(),
        ensures
            r.0.kind == RollKind::FourStar || r.0.kind == RollKind::FourStarFeatured,
            !state.last_s4_featured ==> r.0.kind == RollKind::FourStarFeatured,
            self.featured_chance == CHANCE_SCALE ==> r.0.kind == RollKind::FourStarFeatured,
            state.last_s4_featured && self.featured_chance == 0 ==> r.0.kind
                == RollKind::FourStar,
            r.0.index < self.pool_size(r.0.kind),
            r.1 == featured_next(state, r.0.kind),
    {
        if !state.last_s4_featured || rng.ratio(self.featured_chance, CHANCE_SCALE) {
            let index: u32 = rng.below(self.four_star_featured_count as u128) as u32;
            (
                Roll::new(RollKind::FourStarFeatured, index),
                FeaturedState::new(
                    RegularState::new(state.base.since_s5, 1),
                    state.last_s5_featured,
                    true,
                ),
            )
        } else {
            let (roll, base) = self.base.make_s4_roll(state.base, rng);
            (roll, FeaturedState::new(base, state.last_s5_featured, false))
        }
    }

    /// A top-tier drop. It is featured when the last top-tier drop was not,
    /// and otherwise when a draw with the featured chance succeeds.
    pub fn make_s5_roll<R: RandomSource>(&self, state: FeaturedState, rng: &mut R) -> (r: (
        Roll,
        FeaturedState,
    ))
        requires
            self.base.five_star_count > 0,
            self.five_star_featured_count > 0,
            self.featured_chance <= CHANCE_SCALE,
            state.base.can_advance(),
        ensures
            r.0.kind == RollKind::FiveStar || r.0.kind == RollKind::FiveStarFeatured,
            !state.last_s5_featured ==> r.0.kind == RollKind::FiveStarFeatured,
            self.featured_chance == CHANCE_SCALE ==> r.0.kind == RollKind::FiveStarFeatured,
            state.last_s5_featured && self.featured_chance == 0 ==> r.0.kind
                == RollKind::FiveStar,
            r.0.index < self.pool_size(r.0.kind),
            r.1 == featured_next(state, r.0.kind),
    {
        if !state.last_s5_featured || rng.ratio(self.featured_chance, CHANCE_SCALE) {
            let index: u32 = rng.below(self.five_star_featured_count as u128) as u32;
            (
                Roll::new(RollKind::FiveStarFeatured, index),
                FeaturedState::new(
                    RegularState::new(1, state.base.since_s4),
                    true,
                    state.last_s4_featured,
                ),
            )
        } else {
            let (roll, base) = self.base.make_s5_roll(state.base, rng);
            (roll, FeaturedState::new(base, false, state.last_s4_featured))
        }
    }

    /// One pull: the tier is drawn as in the regular pool, then a high drop
    /// goes through the featured draw of its tier.
    pub fn roll<R: RandomSource>(&self, state: FeaturedState, rng: &mut R) -> (r: (
        Roll,
        FeaturedState,
    ))
        requires
            self.wf(),
            state.base.can_advance(),
        ensures
            exists|draw: int|
                0 <= draw < odds_scale(self.base.pity) && plain_tier(r.0.kind)
                    == self.base.tier_at(state.base, draw),
            0 <= r.0.index < self.pool_size(r.0.kind),
            r.1 == featured_next(state, r.0.kind),
            is_top(r.0.kind) && !state.last_s5_featured ==> r.0.kind
                == RollKind::FiveStarFeatured,
            is_second(r.0.kind) && !state.last_s4_featured ==> r.0.kind
                == RollKind::FourStarFeatured,
            state.base.since_s5 >= self.base.pity.s5_end && (self.base.pity.s5_start
                < self.base.pity.s5_end || state.base.since_s5 > self.base.pity.s5_start)
                ==> is_top(r.0.kind),
    {
        let dist = self.base.weights.get_distribution(&self.base.pity, &state.base);
        let draw: u128 = rng.below(dist.scale);
        proof {
            if state.base.since_s5 >= self.base.pity.s5_end && (self.base.pity.s5_start
                < self.base.pity.s5_end || state.base.since_s5 > self.base.pity.s5_start) {
                lemma_hard_cap_certain(self.base.weights, self.base.pity, state.base);
            }
        }
        let kind = self.base.tier(&state.base, draw);
        match kind {
            RollKind::FiveStar => self.make_s5_roll(state, rng),
            RollKind::FourStar => self.make_s4_roll(state, rng),
            _ => self.make_s3_roll(state, rng),
        }
    }
}

/// After any roll of a regular pool, the counter of the tier that dropped is
/// back at 1, and every other counter counts exactly one more roll.
pub proof fn lemma_regular_counters(state: RegularState, kind: RollKind)
    requires
        state.can_advance(),
    ensures
        is_top(kind) ==> regular_next(state, kind).since_s5 == 1,
        !is_top(kind) ==> regular_next(state, kind).since_s5 == state.since_s5 + 1,
        is_second(kind) ==> regular_next(state, kind).since_s4 == 1,
        !is_second(kind) ==> regular_next(state, kind).since_s4 == state.since_s4 + 1,
{
}

/// After any high drop of a featured pool, featured or not, the counter of
/// its tier is back at 1.
pub proof fn lemma_featured_counter_reset(state: FeaturedState, kind: RollKind)
    ensures
        is_top(kind) ==> featured_next(state, kind).base.since_s5 == 1,
        is_second(kind) ==> featured_next(state, kind).base.since_s4 == 1,
{
}

/// After a drop of a featured pool that is not from a featured pool, every
/// counter that the drop does not restart counts exactly one more roll.
pub proof fn lemma_featured_counters_advance(state: FeaturedState, kind: RollKind)
    requires
        state.base.can_advance(),
        !is_featured(kind),
    ensures
        !is_top(kind) ==> featured_next(state, kind).base.since_s5 == state.base.since_s5 + 1,
        !is_second(kind) ==> featured_next(state, kind).base.since_s4 == state.base.since_s4
            + 1,
{
}

/// A pending featured guarantee survives every drop of another tier, so it is
/// the next drop of its own tier that the guarantee makes featured.
pub proof fn lemma_featured_guarantee_kept(state: FeaturedState, kind: RollKind)
    ensures
        !state.last_s5_featured && !is_top(kind) ==> !featured_next(state, kind).last_s5_featured,
        !state.last_s4_featured && !is_second(kind) ==> !featured_next(
            state,
            kind,
        ).last_s4_featured,
{
}

} // verus!
