//! The rarity engine: which star a headhunt gives, the two pity counters,
//! and whether a five or six star result is a rate-up one.
//!
//! Chances are whole numbers of ten-thousandths: a roll is a value in
//! `0..ROLL_SCALE`, and a chance of `c` is met by the rolls below `c`.

use crate::random_source::RandomSource;
use std::collections::HashMap;
use vstd::prelude::*;
use vstd::set_lib::{lemma_int_range, set_int_range};

verus! {

broadcast use vstd::std_specs::hash::group_hash_axioms;

/// Number of distinct rolls; a chance of `ROLL_SCALE` is certainty.
pub const ROLL_SCALE: u32 = 10_000;

/// Base chance of a six star operator (2%).
pub const SIX_STAR_RATE: u32 = 200;

/// Base chance of a five star operator (8%).
pub const FIVE_STAR_RATE: u32 = 800;

/// Base chance of a four star operator (50%).
pub const FOUR_STAR_RATE: u32 = 5_000;

/// Headhunts without a six star after which the six star chance grows.
pub const SOFT_PITY_AFTER: u8 = 50;

/// Growth of the six star chance per headhunt beyond `SOFT_PITY_AFTER` (2%).
pub const SOFT_PITY_STEP: u32 = 200;

/// Headhunts without a six star after which soft pity has raised the six
/// star chance to certainty: 2% and 49 times 2% more is 100%.
pub const LONGEST_STREAK: u8 = 99;

/// Chance that a five star, or a six star of a standard banner, is rate-up.
pub const RATE_UP_HALF: u32 = 5_000;

/// Chance that a six star of a limited banner is rate-up (70%).
pub const RATE_UP_LIMITED: u32 = 7_000;

/// Headhunts within which a new banner guarantees a five star or better.
pub const FIRST_GUARANTEE: i8 = 10;

/// The kind of a banner. It decides only how often a six star is rate-up.
#[derive(Debug, Clone, Copy, PartialEq, Eq, Structural)]
pub enum BannerType {
    Standard,
    Limited,
}

/// The two pity counters.
pub struct Pity {
    /// Headhunts since the last six star.
    pub non_six_star_count: u8,
    /// Headhunts left until a five star is forced; negative once spent.
    pub guarantee_five_star: i8,
}

/// The base chances, by star. Three star has no entry: it takes what is left.
pub open spec fn base_rates() -> Map<u8, u32> {
    map![6u8 => SIX_STAR_RATE, 5u8 => FIVE_STAR_RATE, 4u8 => FOUR_STAR_RATE]
}

/// Chance that a result of `star` stars is a rate-up operator.
pub open spec fn rate_up_chance(kind: BannerType, star: u8) -> u32 {
    if star == 6 {
        match kind {
            BannerType::Limited => RATE_UP_LIMITED,
            BannerType::Standard => RATE_UP_HALF,
        }
    } else if star == 5 {
        RATE_UP_HALF
    } else {
        0
    }
}

/// The rate-up chances of a banner kind, by star.
pub open spec fn rate_up_rates(kind: BannerType) -> Map<u8, u32> {
    map![5u8 => rate_up_chance(kind, 5), 6u8 => rate_up_chance(kind, 6)]
}

/// What soft pity adds to the six star chance after `streak` headhunts
/// without one.
pub open spec fn soft_pity_bonus(streak: u8) -> int {
    if streak <= SOFT_PITY_AFTER {
        0
    } else {
        SOFT_PITY_STEP * (streak - SOFT_PITY_AFTER)
    }
}

/// The six star chance after `streak` headhunts without one.
pub open spec fn six_star_chance(streak: u8) -> int {
    SIX_STAR_RATE + soft_pity_bonus(streak)
}

/// The star that `roll` gives before the guarantee is looked at: the rolls
/// are split, from zero upwards, into the six star, five star and four star
/// shares, and three star takes the rest.
pub open spec fn natural_star(streak: u8, roll: u32) -> u8 {
    let six = six_star_chance(streak);
    if roll < six {
        6
    } else if roll < six + FIVE_STAR_RATE {
        5
    } else if roll < six + FIVE_STAR_RATE + FOUR_STAR_RATE {
        4
    } else {
        3
    }
}

/// The star of the headhunt: the natural one, raised to five where this is
/// the headhunt on which the guarantee runs out.
pub open spec fn resolved_star(pity: Pity, roll: u32) -> u8 {
    let natural = natural_star(pity.non_six_star_count, roll);
    if pity.guarantee_five_star - 1 == 0 && natural < 5 {
        5
    } else {
        natural
    }
}

/// The counters after a headhunt with `roll`.
pub open spec fn pity_after(pity: Pity, roll: u32) -> Pity {
    Pity {
        non_six_star_count: if natural_star(pity.non_six_star_count, roll) == 6 {
            0
        } else {
            (pity.non_six_star_count + 1) as u8
        },
        guarantee_five_star: if resolved_star(pity, roll) >= 5 {
            -1i8
        } else {
            (pity.guarantee_five_star - 1) as i8
        },
    }
}

/// Whether a result of `star` stars with the second roll `up_roll` is a
/// rate-up operator.
pub open spec fn rate_up_for(kind: BannerType, star: u8, up_roll: u32) -> bool {
    star >= 5 && up_roll < rate_up_chance(kind, star)
}

/// The guarantee counter is far enough from the bottom of its range: it
/// falls by one per headhunt without a five star, and soft pity ends such a
/// run before `LONGEST_STREAK` is passed.
pub open spec fn has_room(pity: Pity) -> bool {
    let run = if pity.non_six_star_count >= LONGEST_STREAK {
        0
    } else {
        LONGEST_STREAK - pity.non_six_star_count
    };
    pity.guarantee_five_star - run > i8::MIN
}

/// The source after the rolls of one rarity resolution: one roll, and a
/// second one where the star is five or six.
pub open spec fn rng_after_star(rng: RandomSource, star: u8) -> RandomSource {
    if star >= 5 {
        rng.step().step()
    } else {
        rng.step()
    }
}

/// Whether `roll` and `up_roll` can be the rolls that `rng` gives to one
/// rarity resolution that starts from `pity`.
pub open spec fn star_rolls_fit(rng: RandomSource, pity: Pity, roll: u32, up_roll: u32) -> bool {
    &&& rng.yields(ROLL_SCALE as usize, roll as usize)
    &&& up_roll < ROLL_SCALE
    &&& resolved_star(pity, roll) >= 5 ==> rng.step().yields(
        ROLL_SCALE as usize,
        up_roll as usize,
    )
}

/// The counters after one headhunt for each of `rolls`, in order.
pub open spec fn pity_run(pity: Pity, rolls: Seq<u32>) -> Pity
    decreases rolls.len(),
{
    if rolls.len() == 0 {
        pity
    } else {
        pity_after(pity_run(pity, rolls.drop_last()), rolls.last())
    }
}

/// Every headhunt gives three to six stars.
pub proof fn lemma_star_in_range(pity: Pity, roll: u32)
    ensures
        3 <= natural_star(pity.non_six_star_count, roll) <= 6,
        3 <= resolved_star(pity, roll) <= 6,
{
}

/// Before soft pity sets in, the rolls are shared out as 2% six star, 8%
/// five star, 50% four star and 40% three star.
pub proof fn lemma_base_shares(streak: u8, roll: u32)
    requires
        streak <= SOFT_PITY_AFTER,
        roll < ROLL_SCALE,
    ensures
        natural_star(streak, roll) == 6 <==> roll < 200,
        natural_star(streak, roll) == 5 <==> 200 <= roll < 1_000,
        natural_star(streak, roll) == 4 <==> 1_000 <= roll < 6_000,
        natural_star(streak, roll) == 3 <==> 6_000 <= roll < 10_000,
{
}

/// Soft pity: beyond fifty headhunts without a six star, the six star
/// chance is 2% and 2% more for each headhunt beyond the fiftieth.
pub proof fn lemma_soft_pity_chance(streak: u8, roll: u32)
    ensures
        natural_star(streak, roll) == 6 <==> roll < six_star_chance(streak),
        streak <= 50 ==> six_star_chance(streak) == 200,
        streak > 50 ==> six_star_chance(streak) == 200 + 200 * (streak - 50),
{
}

/// Soft pity ends every streak: after `LONGEST_STREAK` headhunts without
/// a six star the next one gives six stars, whatever the roll, and no
/// streak count ever passes the end of its range.
pub proof fn lemma_soft_pity_ends_streak(pity: Pity, roll: u32)
    requires
        roll < ROLL_SCALE,
    ensures
        pity.non_six_star_count >= LONGEST_STREAK ==> resolved_star(pity, roll) == 6,
        pity_after(pity, roll).non_six_star_count == if resolved_star(pity, roll) == 6 {
            0
        } else {
            pity.non_six_star_count + 1
        },
        pity_after(pity, roll).non_six_star_count <= LONGEST_STREAK || pity_after(
            pity,
            roll,
        ).non_six_star_count == 0,
        has_room(pity) ==> has_room(pity_after(pity, roll)),
{
}

/// A six star of a limited banner is rate-up on 70% of the second rolls,
/// one of a standard banner on 50%, and a five star on 50% for either
/// kind. Lower stars never are.
pub proof fn lemma_rate_up_shares(kind: BannerType, star: u8, up_roll: u32)
    ensures
        star == 6 && kind == BannerType::Limited ==> (rate_up_for(kind, star, up_roll) <==> up_roll
            < 7_000),
        star == 6 && kind == BannerType::Standard ==> (rate_up_for(kind, star, up_roll)
            <==> up_roll < 5_000),
        star == 5 ==> (rate_up_for(kind, star, up_roll) <==> up_roll < 5_000),
        star < 5 ==> !rate_up_for(kind, star, up_roll),
{
}

/// The rolls that give `star` stars after `streak` headhunts without a six
/// star. Each roll is as likely as any other, so the size of this set, out
/// of `ROLL_SCALE`, is the chance of the star.
pub open spec fn rolls_giving(streak: u8, star: u8) -> Set<int> {
    Set::new(|roll: int| 0 <= roll < ROLL_SCALE && natural_star(streak, roll as u32) == star)
}

/// The second rolls that make a result of `star` stars a rate-up one.
pub open spec fn rolls_rating_up(kind: BannerType, star: u8) -> Set<int> {
    Set::new(|roll: int| 0 <= roll < ROLL_SCALE && rate_up_for(kind, star, roll as u32))
}

/// Before soft pity sets in, 200 of the 10,000 rolls give six stars, 800
/// five, 5,000 four and 4,000 three: the shares that the frequencies of a
/// long run of headhunts tend to.
pub proof fn lemma_base_chances(streak: u8)
    requires
        streak <= SOFT_PITY_AFTER,
    ensures
        rolls_giving(streak, 6).len() == 200,
        rolls_giving(streak, 5).len() == 800,
        rolls_giving(streak, 4).len() == 5_000,
        rolls_giving(streak, 3).len() == 4_000,
{
    assert(rolls_giving(streak, 6) =~= set_int_range(0, 200));
    assert(rolls_giving(streak, 5) =~= set_int_range(200, 1_000));
    assert(rolls_giving(streak, 4) =~= set_int_range(1_000, 6_000));
    assert(rolls_giving(streak, 3) =~= set_int_range(6_000, 10_000));
    lemma_int_range(0, 200);
    lemma_int_range(200, 1_000);
    lemma_int_range(1_000, 6_000);
    lemma_int_range(6_000, 10_000);
}

/// The number of rolls that give six stars is the six star chance, capped
/// at certainty: 400 of 10,000 after 51 headhunts without a six star.
pub proof fn lemma_six_star_chances(streak: u8)
    ensures
        rolls_giving(streak, 6).len() == if six_star_chance(streak) < ROLL_SCALE {
            six_star_chance(streak)
        } else {
            ROLL_SCALE as int
        },
{
    let chance = if six_star_chance(streak) < ROLL_SCALE {
        six_star_chance(streak)
    } else {
        ROLL_SCALE as int
    };
    assert(rolls_giving(streak, 6) =~= set_int_range(0, chance));
    lemma_int_range(0, chance);
}

/// The number of second rolls that make a five or six star rate-up is its
/// rate-up chance: 7,000 of 10,000 for a six star of a limited banner,
/// 5,000 for one of a standard banner and for every five star.
pub proof fn lemma_rate_up_chances(kind: BannerType, star: u8)
    ensures
        rolls_rating_up(kind, star).len() == if star >= 5 {
            rate_up_chance(kind, star) as int
        } else {
            0
        },
        rate_up_chance(BannerType::Limited, 6) == 7_000,
        rate_up_chance(BannerType::Standard, 6) == 5_000,
        rate_up_chance(kind, 5) == 5_000,
{
    let chance = if star >= 5 {
        rate_up_chance(kind, star) as int
    } else {
        0
    };
    assert(rolls_rating_up(kind, star) =~= set_int_range(0, chance));
    lemma_int_range(0, chance);
}

/// While no headhunt gives five stars or more, the guarantee counter falls
/// by one per headhunt.
pub proof fn lemma_guarantee_counts_down(pity: Pity, rolls: Seq<u32>, k: int)
    requires
        0 <= k < rolls.len(),
        pity.guarantee_five_star == rolls.len(),
        forall|i: int|
            0 <= i < rolls.len() - 1 ==> natural_star(
                (#[trigger] pity_run(pity, rolls.take(i))).non_six_star_count,
                rolls[i],
            ) < 5,
    ensures
        pity_run(pity, rolls.take(k)).guarantee_five_star == rolls.len() - k,
    decreases k,
{
    if k > 0 {
        lemma_guarantee_counts_down(pity, rolls, k - 1);
        assert(rolls.take(k).drop_last() =~= rolls.take(k - 1));
        assert(rolls.take(k).last() == rolls[k - 1]);
    } else {
        assert(rolls.take(0).len() == 0);
    }
}

/// Hard pity: with the guarantee counter at `n`, if the first `n - 1`
/// headhunts roll below five stars, the `n`-th gives five stars or more.
/// A new banner starts with the counter at ten.
pub proof fn lemma_guarantee_is_kept(pity: Pity, rolls: Seq<u32>)
    requires
        rolls.len() >= 1,
        pity.guarantee_five_star == rolls.len(),
        forall|i: int|
            0 <= i < rolls.len() - 1 ==> natural_star(
                (#[trigger] pity_run(pity, rolls.take(i))).non_six_star_count,
                rolls[i],
            ) < 5,
    ensures
        resolved_star(pity_run(pity, rolls.drop_last()), rolls.last()) >= 5,
{
    lemma_guarantee_counts_down(pity, rolls, rolls.len() - 1);
    assert(rolls.take(rolls.len() - 1) =~= rolls.drop_last());
}

/// Rarity rates, pity counters and the source of rolls of one banner.
#[derive(Debug)]
pub struct Rarity {
    pub rarity: HashMap<u8, u32>,
    pub rate_up_rate: HashMap<u8, u32>,
    pub non_six_star_count: u8,
    pub guarantee_five_star: i8,
    pub rng: RandomSource,
}

impl Rarity {
    /// The base chances held, by star.
    pub open spec fn rates(&self) -> Map<u8, u32> {
        self.rarity@
    }

    /// The rate-up chances held, by star.
    pub open spec fn up_rates(&self) -> Map<u8, u32> {
        self.rate_up_rate@
    }

    /// The kind of banner that the rate-up chances belong to.
    pub open spec fn banner_type(&self) -> BannerType {
        if self.up_rates() == rate_up_rates(BannerType::Limited) {
            BannerType::Limited
        } else {
            BannerType::Standard
        }
    }

    /// The two counters as one value.
    pub open spec fn pity(&self) -> Pity {
        Pity {
            non_six_star_count: self.non_six_star_count,
            guarantee_five_star: self.guarantee_five_star,
        }
    }

    /// The tables hold the base chances and the rate-up chances of one
    /// banner kind.
    pub open spec fn wf(&self) -> bool {
        &&& self.rates() == base_rates()
        &&& self.up_rates() == rate_up_rates(self.banner_type())
    }

    /// Same tables in `self` and `other`.
    pub open spec fn same_rates(&self, other: &Rarity) -> bool {
        self.rates() == other.rates() && self.up_rates() == other.up_rates()
    }

    /// A fresh engine for `banner_type` that rolls with the thread-local
    /// generator.
    pub fn from_banner_type(banner_type: BannerType) -> (made: Rarity)
        ensures
            made.wf(),
            made.banner_type() == banner_type,
            made.non_six_star_count == 0,
            made.guarantee_five_star == FIRST_GUARANTEE,
            made.rng == RandomSource::Thread,
    {
        Rarity::with_source(banner_type, RandomSource::Thread)
    }

    /// A fresh engine for `banner_type` that takes its rolls from `rng`.
    pub fn with_source(banner_type: BannerType, rng: RandomSource) -> (made: Rarity)
        ensures
            made.wf(),
            made.banner_type() == banner_type,
            made.non_six_star_count == 0,
            made.guarantee_five_star == FIRST_GUARANTEE,
            made.rng == rng,
    {
        let mut rarity: HashMap<u8, u32> = HashMap::new();
        rarity.insert(6, SIX_STAR_RATE);
        rarity.insert(5, FIVE_STAR_RATE);
        rarity.insert(4, FOUR_STAR_RATE);
        let mut rate_up_rate: HashMap<u8, u32> = HashMap::new();
        rate_up_rate.insert(5, RATE_UP_HALF);
        match banner_type {
            BannerType::Limited => rate_up_rate.insert(6, RATE_UP_LIMITED),
            BannerType::Standard => rate_up_rate.insert(6, RATE_UP_HALF),
        };
        proof {
            assert(rarity@ =~= base_rates());
            assert(rate_up_rate@ =~= rate_up_rates(banner_type));
            assert(rate_up_rates(BannerType::Limited)[6] != rate_up_rates(
                BannerType::Standard,
            )[6]);
        }
        Rarity {
            rarity,
            rate_up_rate,
            non_six_star_count: 0,
            guarantee_five_star: FIRST_GUARANTEE,
            rng,
        }
    }

    /// Whether the guarantee counter has room for the headhunts to come.
    pub fn timer_has_room(&self) -> (ok: bool)
        ensures
            ok == has_room(self.pity()),
    {
        let run: i16 = if self.non_six_star_count >= LONGEST_STREAK {
            0
        } else {
            (LONGEST_STREAK - self.non_six_star_count) as i16
        };
        self.guarantee_five_star as i16 - run > i8::MIN as i16
    }

    /// The chance held for `star`, or `fallback` where none is.
    fn rate_or(table: &HashMap<u8, u32>, star: u8, fallback: u32) -> (rate: u32)
        ensures
            rate == if table@.contains_key(star) {
                table@[star]
            } else {
                fallback
            },
    {
        match table.get(&star) {
            Some(rate) => *rate,
            None => fallback,
        }
    }

    /// Resolves the star of one headhunt from its roll and moves the two
    /// counters on.
    pub fn resolve_star(&mut self, roll: u32) -> (star: u8)
        requires
            old(self).wf(),
            has_room(old(self).pity()),
            roll < ROLL_SCALE,
        ensures
            star == resolved_star(old(self).pity(), roll),
            3 <= star <= 6,
            final(self).pity() == pity_after(old(self).pity(), roll),
            has_room(final(self).pity()),
            final(self).same_rates(old(self)),
            final(self).rng == old(self).rng,
    {
        let streak: u8 = self.non_six_star_count;
        let mut extra_rate: u32 = if streak <= SOFT_PITY_AFTER {
            0
        } else {
            SOFT_PITY_STEP * ((streak - SOFT_PITY_AFTER) as u32)
        };
        let ghost six = six_star_chance(streak);
        let mut res: u32 = roll;
        let mut star_result: u8 = 0;
        let mut star: u8 = 6;
        while star >= 3 && star_result == 0
            invariant
                self.rarity@ == base_rates(),
                six == six_star_chance(streak),
                roll < ROLL_SCALE,
                2 <= star <= 6,
                star_result != 0 ==> star_result == natural_star(streak, roll),
                star_result == 0 ==> extra_rate == if star == 6 {
                    soft_pity_bonus(streak)
                } else {
                    0
                },
                star_result == 0 && star == 6 ==> res == roll,
                star_result == 0 && star == 5 ==> six <= roll && res == roll - six,
                star_result == 0 && star == 4 ==> six + FIVE_STAR_RATE <= roll && res == roll - six
                    - FIVE_STAR_RATE,
                star_result == 0 && star == 3 ==> six + FIVE_STAR_RATE + FOUR_STAR_RATE <= roll
                    && res == roll - six - FIVE_STAR_RATE - FOUR_STAR_RATE,
                star_result == 0 ==> star >= 3,
            decreases star + (if star_result == 0 { 1int } else { 0int }),
        {
            let rate: u32 = extra_rate + Rarity::rate_or(&self.rarity, star, ROLL_SCALE);
            extra_rate = 0;
            if res < rate {
                star_result = star;
            } else {
                res -= rate;
                star -= 1;
            }
        }
        self.non_six_star_count = if star_result == 6 {
            0
        } else {
            self.non_six_star_count + 1
        };
        self.guarantee_five_star -= 1;
        if self.guarantee_five_star == 0 && star_result < 5 {
            star_result = 5;
        }
        if star_result >= 5 {
            self.guarantee_five_star = -1;
        }
        star_result
    }

    /// Whether a result of `star` stars is a rate-up operator, from the
    /// second roll of the headhunt.
    pub fn is_rate_up(&self, star: u8, up_roll: u32) -> (is_up: bool)
        requires
            self.wf(),
        ensures
            is_up == rate_up_for(self.banner_type(), star, up_roll),
    {
        star >= 5 && up_roll < Rarity::rate_or(&self.rate_up_rate, star, 0)
    }

    /// What one rarity resolution with the rolls `roll` and `up_roll` makes
    /// of `pre`: the result `out` and the engine `post`.
    pub open spec fn gacha_time(
        pre: Rarity,
        roll: u32,
        up_roll: u32,
        out: (u8, bool),
        post: Rarity,
    ) -> bool {
        &&& star_rolls_fit(pre.rng, pre.pity(), roll, up_roll)
        &&& out.0 == resolved_star(pre.pity(), roll)
        &&& out.1 == rate_up_for(pre.banner_type(), out.0, up_roll)
        &&& post.pity() == pity_after(pre.pity(), roll)
        &&& post.rng == rng_after_star(pre.rng, out.0)
        &&& post.same_rates(&pre)
    }

    /// One rarity resolution: takes a roll from the source, resolves the
    /// star, and for five and six stars takes a second roll that decides
    /// whether the operator is a rate-up one.
    pub fn it_gacha_time(&mut self) -> (out: (u8, bool))
        requires
            old(self).wf(),
            old(self).rng.wf(),
            has_room(old(self).pity()),
        ensures
            exists|roll: u32, up_roll: u32| #[trigger]
                Rarity::gacha_time(*old(self), roll, up_roll, out, *final(self)),
            3 <= out.0 <= 6,
            final(self).wf(),
            final(self).rng.wf(),
            has_room(final(self).pity()),
    {
        let roll: u32 = self.rng.next_below(ROLL_SCALE as usize) as u32;
        let star_result: u8 = self.resolve_star(roll);
        let mut is_up: bool = false;
        let mut up_roll: u32 = 0;
        if star_result >= 5 {
            up_roll = self.rng.next_below(ROLL_SCALE as usize) as u32;
            is_up = self.is_rate_up(star_result, up_roll);
        }
        proof {
            assert(Rarity::gacha_time(
                *old(self),
                roll,
                up_roll,
                (star_result, is_up),
                *self,
            ));
        }
        (star_result, is_up)
    }
}

} // verus!
