use vstd::prelude::*;

verus! {

/// How many rolls have been made since the last drop of each rarity that pity
/// tracks. Each counter is 1 right after a drop of its tier.
#[derive(Debug, Clone, Copy, PartialEq, Eq, Structural)]
pub struct RegularState {
    pub since_s5: u32,
    pub since_s4: u32,
}

impl RegularState {
    pub fn new(since_s5: u32, since_s4: u32) -> (r: Self)
        ensures
            r.since_s5 == since_s5,
            r.since_s4 == since_s4,
    {
        Self { since_s5, since_s4 }
    }

    /// Neither counter is at the largest value its type holds, so a roll can
    /// count one more.
    pub open spec fn can_advance(self) -> bool {
        self.since_s5 < u32::MAX && self.since_s4 < u32::MAX
    }
}

/// The pity counters of a featured pool, together with whether the last drop
/// of each high rarity was a featured item.
#[derive(Debug, Clone, Copy, PartialEq, Eq, Structural)]
pub struct FeaturedState {
    pub base: RegularState,
    pub last_s5_featured: bool,
    pub last_s4_featured: bool,
}

impl FeaturedState {
    pub fn new(base: RegularState, last_s5_featured: bool, last_s4_featured: bool) -> (r: Self)
        ensures
            r.base == base,
            r.last_s5_featured == last_s5_featured,
            r.last_s4_featured == last_s4_featured,
    {
        Self { base, last_s5_featured, last_s4_featured }
    }
}

} // verus!
