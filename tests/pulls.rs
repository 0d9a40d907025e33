use gacha_pity::odds::{Pity, Weights, CHANCE_SCALE};
use gacha_pity::roll::{FeaturedWish, RegularWish, Roll, RollKind};
use gacha_pity::source::RandomSource;
use gacha_pity::state::{FeaturedState, RegularState};
use rand::rngs::StdRng;
use rand::SeedableRng;

const ROLLS: u32 = 1_000_000;
const EPS: f64 = 1. / 300.;

fn test_tol(result: f64, expected: f64) {
    let res = result / ROLLS as f64;
    let high = expected + EPS;
    let low = expected - EPS;

    assert!(
        res < high && res > low,
        "Expected: {}, Got: {}",
        expected,
        res
    );
}

fn standard_wish() -> RegularWish {
    RegularWish {
        weights: Weights::new(6_000, 51_000),
        pity: Pity::new(73, 90, 9),
        five_star_count: 100,
        four_star_count: 100,
        three_star_count: 100,
    }
}

fn featured_wish(featured_chance: u32) -> FeaturedWish {
    FeaturedWish {
        base: standard_wish(),
        five_star_featured_count: 100,
        four_star_featured_count: 100,
        featured_chance,
    }
}

/// A source that hands out fixed draws in order.
struct Script {
    values: Vec<u128>,
    flips: Vec<bool>,
}

impl Script {
    fn new(values: &[u128], flips: &[bool]) -> Self {
        Script {
            values: values.iter().rev().copied().collect(),
            flips: flips.iter().rev().copied().collect(),
        }
    }
}

impl RandomSource for Script {
    fn below(&mut self, bound: u128) -> u128 {
        let v = self.values.pop().expect("script ran out of values");
        assert!(v < bound);
        v
    }

    fn ratio(&mut self, _num: u32, _den: u32) -> bool {
        self.flips.pop().expect("script ran out of flips")
    }
}

fn ratio_of(value: u128, scale: u128) -> f64 {
    value as f64 / scale as f64
}

#[test]
fn weight_increase_test() {
    let weight = Weights::new(6_000, 51_000);
    let pity = Pity::new(73, 90, 9);

    let state = RegularState::new(74, 10);
    let arr = weight.get_distribution(&pity, &state);
    assert!(ratio_of(arr.top, arr.scale) > 0.006);
    assert!(ratio_of(arr.top_and_second, arr.scale) >= 1.);

    let state = RegularState::new(89, 9);
    let arr = weight.get_distribution(&pity, &state);
    assert!(ratio_of(arr.top, arr.scale) < 1.);

    let state = RegularState::new(90, 9);
    let arr = weight.get_distribution(&pity, &state);
    assert!(ratio_of(arr.top, arr.scale) >= 1.);
    assert_ne!(ratio_of(arr.top_and_second, arr.scale), 1.);
}

#[test]
fn regular_wish_test() {
    let mut state = RegularState::new(1, 1);
    let mut rng = StdRng::seed_from_u64(0x5eed);

    let mut s5 = 0.;
    let mut s4 = 0.;

    let wish = standard_wish();

    for _ in 0..ROLLS {
        let roll;
        (roll, state) = wish.roll(state, &mut rng);
        match roll.kind {
            RollKind::FiveStar => s5 += 1.,
            RollKind::FourStar => s4 += 1.,
            _ => (),
        }
    }

    test_tol(s5, 0.016);
    test_tol(s4, 0.13);
}

#[test]
fn featured_wish_test() {
    let mut state = FeaturedState::new(RegularState::new(1, 1), true, true);
    let mut rng = StdRng::seed_from_u64(0xfea7);

    let mut s5 = 0.;
    let mut s4 = 0.;

    let wish = featured_wish(500_000);

    for _ in 0..ROLLS {
        let roll;
        (roll, state) = wish.roll(state, &mut rng);
        match roll.kind {
            RollKind::FiveStar => s5 += 1.,
            RollKind::FiveStarFeatured => s5 += 1.,
            RollKind::FourStar => s4 += 1.,
            RollKind::FourStarFeatured => s4 += 1.,
            _ => (),
        }
    }

    test_tol(s5, 0.016);
    test_tol(s4, 0.13);
}

#[test]
fn base_odds_below_soft_start() {
    let weight = Weights::new(6_000, 51_000);
    let pity = Pity::new(73, 90, 9);
    for since in [0u32, 1, 40, 73] {
        let d = weight.get_distribution(&pity, &RegularState::new(since, 1));
        assert_eq!(d.top * CHANCE_SCALE as u128, 6_000 * d.scale);
    }
}

#[test]
fn exact_boundaries() {
    let weight = Weights::new(6_000, 51_000);
    let pity = Pity::new(73, 90, 9);
    let d = weight.get_distribution(&pity, &RegularState::new(74, 10));
    // scale: a million, times a ramp of 17 rolls, times two million
    assert_eq!(d.scale, 34_000_000_000_000);
    // top: (6000 * 17 + 994000 * 1) * 2_000_000
    assert_eq!(d.top, 2_192_000_000_000);
    // second: (2 * 51000 + 949000 * 2) * 17_000_000, exactly certain on its own
    assert_eq!(d.top_and_second - d.top, d.scale);
}

#[test]
fn hard_cap_is_certain() {
    let weight = Weights::new(6_000, 51_000);
    let pity = Pity::new(73, 90, 9);
    for since in [90u32, 91, 500] {
        let d = weight.get_distribution(&pity, &RegularState::new(since, 1));
        assert!(d.top >= d.scale);
    }
    let d = weight.get_distribution(&pity, &RegularState::new(89, 1));
    assert!(d.top < d.scale);
}

#[test]
fn soft_start_equal_to_hard_cap() {
    let weight = Weights::new(6_000, 51_000);
    let pity = Pity::new(10, 10, 9);
    let at = weight.get_distribution(&pity, &RegularState::new(10, 1));
    assert_eq!(at.top * CHANCE_SCALE as u128, 6_000 * at.scale);
    let past = weight.get_distribution(&pity, &RegularState::new(11, 1));
    assert_eq!(past.top, past.scale);
}

#[test]
fn base_second_odds_below_guarantee() {
    let weight = Weights::new(6_000, 51_000);
    let pity = Pity::new(73, 90, 9);
    for since in [1u32, 5, 8] {
        let d = weight.get_distribution(&pity, &RegularState::new(80, since));
        assert_eq!((d.top_and_second - d.top) * CHANCE_SCALE as u128, 51_000 * d.scale);
    }
    let d = weight.get_distribution(&pity, &RegularState::new(1, 9));
    // one step of half the missing chance: (51000 + 474500) / 1_000_000
    assert_eq!((d.top_and_second - d.top) * CHANCE_SCALE as u128, 525_500 * d.scale);
}

#[test]
fn tier_follows_the_draw() {
    let wish = standard_wish();
    let state = RegularState::new(1, 1);
    let d = wish.weights.get_distribution(&wish.pity, &state);
    assert_eq!(wish.tier(&state, 0), RollKind::FiveStar);
    assert_eq!(wish.tier(&state, d.top - 1), RollKind::FiveStar);
    assert_eq!(wish.tier(&state, d.top), RollKind::FourStar);
    assert_eq!(wish.tier(&state, d.top_and_second - 1), RollKind::FourStar);
    assert_eq!(wish.tier(&state, d.top_and_second), RollKind::ThreeStar);
    assert_eq!(wish.tier(&state, d.scale - 1), RollKind::ThreeStar);
}

#[test]
fn regular_counters_after_each_tier() {
    let wish = standard_wish();
    let state = RegularState::new(20, 5);
    let d = wish.weights.get_distribution(&wish.pity, &state);

    let (roll, next) = wish.roll(state, &mut Script::new(&[0, 7], &[]));
    assert_eq!(roll, Roll::new(RollKind::FiveStar, 7));
    assert_eq!(next, RegularState::new(1, 6));

    let (roll, next) = wish.roll(state, &mut Script::new(&[d.top, 3], &[]));
    assert_eq!(roll, Roll::new(RollKind::FourStar, 3));
    assert_eq!(next, RegularState::new(21, 1));

    let (roll, next) = wish.roll(state, &mut Script::new(&[d.scale - 1, 99], &[]));
    assert_eq!(roll, Roll::new(RollKind::ThreeStar, 99));
    assert_eq!(next, RegularState::new(21, 6));
}

#[test]
fn hard_cap_roll_is_top_tier() {
    let wish = standard_wish();
    let state = RegularState::new(90, 3);
    let d = wish.weights.get_distribution(&wish.pity, &state);
    let (roll, next) = wish.roll(state, &mut Script::new(&[d.scale - 1, 0], &[]));
    assert_eq!(roll.kind, RollKind::FiveStar);
    assert_eq!(next, RegularState::new(1, 4));
}

#[test]
fn lost_top_tier_guarantees_featured() {
    let wish = featured_wish(500_000);
    let state = FeaturedState::new(RegularState::new(30, 2), false, true);
    // the flip would lose the featured draw, but the guarantee does not ask
    let (roll, next) = wish.roll(state, &mut Script::new(&[0, 4], &[false]));
    assert_eq!(roll, Roll::new(RollKind::FiveStarFeatured, 4));
    assert_eq!(next, FeaturedState::new(RegularState::new(1, 2), true, true));
}

#[test]
fn featured_draw_decides_after_featured_drop() {
    let wish = featured_wish(500_000);
    let state = FeaturedState::new(RegularState::new(30, 2), true, false);

    let (roll, next) = wish.roll(state, &mut Script::new(&[0, 4], &[false]));
    assert_eq!(roll, Roll::new(RollKind::FiveStar, 4));
    assert_eq!(next, FeaturedState::new(RegularState::new(1, 3), false, false));

    let (roll, next) = wish.roll(state, &mut Script::new(&[0, 5], &[true]));
    assert_eq!(roll, Roll::new(RollKind::FiveStarFeatured, 5));
    assert_eq!(next, FeaturedState::new(RegularState::new(1, 2), true, false));
}

#[test]
fn featured_second_tier_and_third_tier() {
    let wish = featured_wish(500_000);
    let state = FeaturedState::new(RegularState::new(30, 2), true, false);
    let d = wish.base.weights.get_distribution(&wish.base.pity, &state.base);

    let (roll, next) = wish.roll(state, &mut Script::new(&[d.top, 8], &[]));
    assert_eq!(roll, Roll::new(RollKind::FourStarFeatured, 8));
    assert_eq!(next, FeaturedState::new(RegularState::new(30, 1), true, true));

    let (roll, next) = wish.roll(next, &mut Script::new(&[d.top, 9], &[false]));
    assert_eq!(roll, Roll::new(RollKind::FourStar, 9));
    assert_eq!(next, FeaturedState::new(RegularState::new(31, 1), true, false));

    let (roll, next) = wish.roll(next, &mut Script::new(&[d.scale - 1, 1], &[]));
    assert_eq!(roll, Roll::new(RollKind::ThreeStar, 1));
    assert_eq!(next, FeaturedState::new(RegularState::new(32, 2), true, false));
}

#[test]
fn seeded_rolls_repeat() {
    let wish = featured_wish(500_000);
    let mut first = StdRng::seed_from_u64(42);
    let mut second = StdRng::seed_from_u64(42);
    let mut a = FeaturedState::new(RegularState::new(1, 1), true, true);
    let mut b = a;
    for _ in 0..2_000 {
        let (ra, na) = wish.roll(a, &mut first);
        let (rb, nb) = wish.roll(b, &mut second);
        assert_eq!(ra, rb);
        assert_eq!(na, nb);
        a = na;
        b = nb;
    }
}

#[test]
fn scripted_rolls_repeat() {
    let wish = standard_wish();
    let state = RegularState::new(75, 4);
    let one = wish.roll(state, &mut Script::new(&[123_456_789, 42], &[]));
    let two = wish.roll(state, &mut Script::new(&[123_456_789, 42], &[]));
    assert_eq!(one, two);
}

#[test]
fn std_source_stays_in_range() {
    let mut rng = StdRng::seed_from_u64(7);
    let mut seen_low = false;
    for _ in 0..200 {
        let v = rng.below(10);
        assert!(v < 10);
        if v < 5 {
            seen_low = true;
        }
    }
    assert!(seen_low);
    let big = 34_000_000_000_000u128;
    for _ in 0..200 {
        assert!(rng.below(big) < big);
    }
}

#[test]
fn std_source_ratio_edges() {
    let mut rng = StdRng::seed_from_u64(9);
    let mut seen_true = false;
    let mut seen_false = false;
    for _ in 0..200 {
        assert!(!rng.ratio(0, CHANCE_SCALE));
        assert!(rng.ratio(CHANCE_SCALE, CHANCE_SCALE));
        if rng.ratio(1, 2) {
            seen_true = true;
        } else {
            seen_false = true;
        }
    }
    assert!(seen_true && seen_false);
}

#[test]
fn certain_and_impossible_featured_chance() {
    let state = FeaturedState::new(RegularState::new(30, 2), true, true);
    let mut rng = StdRng::seed_from_u64(3);
    let always = featured_wish(CHANCE_SCALE);
    let never = featured_wish(0);
    let d = always.base.weights.get_distribution(&always.base.pity, &state.base);
    for _ in 0..50 {
        let (roll, _) = always.make_s5_roll(state, &mut rng);
        assert_eq!(roll.kind, RollKind::FiveStarFeatured);
        let (roll, _) = never.make_s5_roll(state, &mut rng);
        assert_eq!(roll.kind, RollKind::FiveStar);
        let (roll, _) = never.make_s4_roll(state, &mut rng);
        assert_eq!(roll.kind, RollKind::FourStar);
    }
    assert!(d.top < d.scale);
}

#[test]
fn constructors_keep_fields() {
    let s = RegularState::new(3, 4);
    assert_eq!((s.since_s5, s.since_s4), (3, 4));
    let f = FeaturedState::new(s, true, false);
    assert_eq!(f.base, s);
    assert!(f.last_s5_featured && !f.last_s4_featured);
    let p = Pity::new(1, 2, 3);
    assert_eq!((p.s5_start, p.s5_end, p.s4_proc), (1, 2, 3));
    let r = Roll::new(RollKind::ThreeStar, 12);
    assert_eq!(r.kind, RollKind::ThreeStar);
    assert_eq!(r.index, 12);
}
