//! A banner: the operator pools, the rate-up pools, and the rarity engine
//! that decides each headhunt.

use crate::banner_rng::{
    has_room, pity_after, pity_run, rate_up_for, resolved_star, rng_after_star, star_rolls_fit,
    BannerType, Pity, Rarity,
};
use crate::random_source::RandomSource;
use std::collections::HashMap;
use vstd::prelude::*;

verus! {

broadcast use vstd::std_specs::hash::group_hash_axioms;

/// A headhunt resolved to a star and rate-up flag for which no operator is
/// listed.
#[derive(Debug, Clone, Copy, PartialEq, Eq, Structural)]
pub struct EmptyPoolError {
    pub star: u8,
    pub is_up: bool,
}

/// The rolls of one headhunt: for the star, for the rate-up flag (used for
/// five and six stars only), and for the place of the operator in its list.
pub struct Rolls {
    pub star: u32,
    pub up: u32,
    pub pick: usize,
}

/// What a headhunt changes: the pity counters and the source of rolls.
pub struct DrawState {
    pub pity: Pity,
    pub rng: RandomSource,
}

/// What a run of headhunts gives: the state it ends in, the operators
/// obtained in order, and the failure that ended it early, if any.
pub struct Batch {
    pub state: DrawState,
    pub items: Seq<(u8, String, bool)>,
    pub failure: Option<EmptyPoolError>,
}

/// The operators that `table` lists for `star`; none where it has no entry.
pub open spec fn listed(table: Map<u8, Vec<String>>, star: u8) -> Seq<String> {
    if table.contains_key(star) {
        table[star]@
    } else {
        Seq::empty()
    }
}

/// The list an operator is picked from: the rate-up list of the star where
/// the result is rate-up and that list has an entry, else the pool's list.
pub open spec fn candidates(
    pool: Map<u8, Vec<String>>,
    rate_up: Map<u8, Vec<String>>,
    star: u8,
    is_up: bool,
) -> Seq<String> {
    if is_up && listed(rate_up, star).len() > 0 {
        listed(rate_up, star)
    } else {
        listed(pool, star)
    }
}

/// The list for `star` and `is_up`, or `None` where it is missing or empty.
pub fn select_list<'a>(
    pool: &'a HashMap<u8, Vec<String>>,
    rate_up: &'a HashMap<u8, Vec<String>>,
    star: u8,
    is_up: bool,
) -> (found: Option<&'a Vec<String>>)
    ensures
        match found {
            Some(list) => list@ == candidates(pool@, rate_up@, star, is_up) && list@.len() > 0,
            None => candidates(pool@, rate_up@, star, is_up).len() == 0,
        },
{
    if is_up {
        if let Some(list) = rate_up.get(&star) {
            if list.len() > 0 {
                return Some(list);
            }
        }
    }
    match pool.get(&star) {
        Some(list) => if list.len() > 0 {
            Some(list)
        } else {
            None
        },
        None => None,
    }
}

/// Pools, rate-up pools and rarity engine of one banner.
#[derive(Debug)]
pub struct Banner {
    pub pool: HashMap<u8, Vec<String>>,
    pub rate_up: HashMap<u8, Vec<String>>,
    pub rarity: Rarity,
    pub banner_type: BannerType,
}

impl Banner {
    /// The engine's tables are those of this banner's kind.
    pub open spec fn wf(&self) -> bool {
        self.rarity.wf() && self.rarity.banner_type() == self.banner_type
    }

    /// A headhunt can be made: the banner is well formed, its source is, and
    /// the guarantee counter has room to fall.
    pub open spec fn can_draw(&self) -> bool {
        self.wf() && self.rarity.rng.wf() && has_room(self.rarity.pity())
    }

    /// The part of the banner that headhunts change.
    pub open spec fn state(&self) -> DrawState {
        DrawState { pity: self.rarity.pity(), rng: self.rarity.rng }
    }

    /// Same pools, kind and rate tables in `self` and `other`.
    pub open spec fn same_setup(&self, other: &Banner) -> bool {
        &&& self.pool == other.pool
        &&& self.rate_up == other.rate_up
        &&& self.banner_type == other.banner_type
        &&& self.rarity.same_rates(&other.rarity)
    }

    /// The star that a headhunt from state `s` with `rolls` gives.
    pub open spec fn star_of(s: DrawState, rolls: Rolls) -> u8 {
        resolved_star(s.pity, rolls.star)
    }

    /// Whether a headhunt from state `s` with `rolls` gives a rate-up
    /// operator.
    pub open spec fn up_of(&self, s: DrawState, rolls: Rolls) -> bool {
        rate_up_for(self.banner_type, Banner::star_of(s, rolls), rolls.up)
    }

    /// The list that a headhunt from state `s` with `rolls` picks from.
    pub open spec fn names_of(&self, s: DrawState, rolls: Rolls) -> Seq<String> {
        candidates(self.pool@, self.rate_up@, Banner::star_of(s, rolls), self.up_of(s, rolls))
    }

    /// Whether `rolls` can be what the source of `s` gives to one headhunt.
    pub open spec fn rolls_fit(&self, s: DrawState, rolls: Rolls) -> bool {
        let names = self.names_of(s, rolls);
        &&& star_rolls_fit(s.rng, s.pity, rolls.star, rolls.up)
        &&& names.len() > 0 ==> rng_after_star(s.rng, Banner::star_of(s, rolls)).yields(
            names.len() as usize,
            rolls.pick,
        )
    }

    /// The state after a headhunt from state `s` with `rolls`. The counters
    /// move on and the rolls are spent also where no operator is listed.
    pub open spec fn state_after(&self, s: DrawState, rolls: Rolls) -> DrawState {
        let rng = rng_after_star(s.rng, Banner::star_of(s, rolls));
        DrawState {
            pity: pity_after(s.pity, rolls.star),
            rng: if self.names_of(s, rolls).len() > 0 {
                rng.step()
            } else {
                rng
            },
        }
    }

    /// What a headhunt from state `s` with `rolls` returns.
    pub open spec fn outcome(&self, s: DrawState, rolls: Rolls) -> Result<
        (u8, String, bool),
        EmptyPoolError,
    > {
        let star = Banner::star_of(s, rolls);
        let is_up = self.up_of(s, rolls);
        let names = self.names_of(s, rolls);
        if names.len() > 0 {
            Ok((star, names[rolls.pick as int], is_up))
        } else {
            Err(EmptyPoolError { star, is_up })
        }
    }

    /// What one headhunt with `rolls` makes of `pre`: the result `out` and
    /// the banner `post`.
    pub open spec fn drew(
        pre: Banner,
        rolls: Rolls,
        out: Result<(u8, String, bool), EmptyPoolError>,
        post: Banner,
    ) -> bool {
        &&& pre.rolls_fit(pre.state(), rolls)
        &&& out == pre.outcome(pre.state(), rolls)
        &&& post.state() == pre.state_after(pre.state(), rolls)
        &&& post.same_setup(&pre)
    }

    /// What headhunts from state `s` give, one for each of `rolls` in order,
    /// each starting from the state the one before left. A headhunt that
    /// finds no operator ends the run.
    pub open spec fn run(&self, s: DrawState, rolls: Seq<Rolls>) -> Batch
        decreases rolls.len(),
    {
        if rolls.len() == 0 {
            Batch { state: s, items: Seq::empty(), failure: None }
        } else {
            let before = self.run(s, rolls.drop_last());
            if before.failure is Some {
                before
            } else {
                match self.outcome(before.state, rolls.last()) {
                    Ok(item) => Batch {
                        state: self.state_after(before.state, rolls.last()),
                        items: before.items.push(item),
                        failure: None,
                    },
                    Err(e) => Batch {
                        state: self.state_after(before.state, rolls.last()),
                        items: before.items,
                        failure: Some(e),
                    },
                }
            }
        }
    }

    /// Whether `rolls` can be what the source of `s` gives to a run of
    /// headhunts, none of which but the last finds no operator.
    pub open spec fn run_fits(&self, s: DrawState, rolls: Seq<Rolls>) -> bool
        decreases rolls.len(),
    {
        rolls.len() == 0 || {
            let before = self.run(s, rolls.drop_last());
            &&& self.run_fits(s, rolls.drop_last())
            &&& before.failure is None
            &&& self.rolls_fit(before.state, rolls.last())
        }
    }

    /// What a run of at most `count` headhunts with `rolls` makes of `pre`:
    /// the result `out` and the banner `post`. The result is the operators
    /// of all `count` headhunts, or the failure of the one that ended it.
    pub open spec fn drew_batch(
        pre: Banner,
        count: usize,
        rolls: Seq<Rolls>,
        out: Result<Vec<(u8, String, bool)>, EmptyPoolError>,
        post: Banner,
    ) -> bool {
        let batch = pre.run(pre.state(), rolls);
        &&& pre.run_fits(pre.state(), rolls)
        &&& post.state() == batch.state
        &&& post.same_setup(&pre)
        &&& match out {
            Ok(items) => rolls.len() == count && batch.failure is None && items@ == batch.items,
            Err(e) => rolls.len() <= count && batch.failure == Some(e),
        }
    }

    /// The run `first` carried on by one headhunt for each of `rolls`.
    pub open spec fn carried_on(&self, first: Batch, rolls: Seq<Rolls>) -> Batch {
        if first.failure is Some {
            first
        } else {
            let rest = self.run(first.state, rolls);
            Batch { state: rest.state, items: first.items + rest.items, failure: rest.failure }
        }
    }

    /// A run of one headhunt is that headhunt.
    pub proof fn lemma_run_of_one(&self, s: DrawState, rolls: Rolls)
        ensures
            self.run_fits(s, seq![rolls]) == self.rolls_fit(s, rolls),
            self.run(s, seq![rolls]) == match self.outcome(s, rolls) {
                Ok(item) => Batch {
                    state: self.state_after(s, rolls),
                    items: seq![item],
                    failure: None,
                },
                Err(e) => Batch {
                    state: self.state_after(s, rolls),
                    items: Seq::empty(),
                    failure: Some(e),
                },
            },
    {
        let one = seq![rolls];
        assert(one.drop_last() =~= Seq::<Rolls>::empty());
        assert(one.last() == rolls);
        assert(self.run_fits(s, Seq::<Rolls>::empty()));
        assert(self.run(s, Seq::<Rolls>::empty()).failure is None);
        assert(self.run(s, one.drop_last()).items.push(self.outcome(s, rolls)->Ok_0) =~= seq![
            self.outcome(s, rolls)->Ok_0,
        ]);
    }

    /// A run equals its first part carried on by the rest: headhunts made
    /// in one batch and headhunts made one after another, with the same
    /// rolls, give the same operators and end in the same state.
    pub proof fn lemma_run_splits(&self, s: DrawState, first: Seq<Rolls>, rest: Seq<Rolls>)
        ensures
            self.run(s, first + rest) == self.carried_on(self.run(s, first), rest),
        decreases rest.len(),
    {
        let head = self.run(s, first);
        if rest.len() == 0 {
            assert(first + rest =~= first);
            assert(head.items + Seq::<(u8, String, bool)>::empty() =~= head.items);
        } else {
            self.lemma_run_splits(s, first, rest.drop_last());
            assert((first + rest).drop_last() =~= first + rest.drop_last());
            assert((first + rest).last() == rest.last());
            if head.failure is None {
                let shorter = self.run(head.state, rest.drop_last());
                if shorter.failure is None {
                    match self.outcome(shorter.state, rest.last()) {
                        Ok(item) => {
                            assert((head.items + shorter.items).push(item) =~= head.items
                                + shorter.items.push(item));
                        },
                        Err(_) => {},
                    }
                }
            }
        }
    }

    /// The star rolls of a run of headhunts.
    pub open spec fn star_rolls(rolls: Seq<Rolls>) -> Seq<u32> {
        rolls.map_values(|r: Rolls| r.star)
    }

    /// A run without failure gives one operator per headhunt; its counters
    /// move as the star rolls make them, and each operator has the star
    /// that its roll resolves to from the counters before it.
    pub proof fn lemma_run_moves_pity(&self, s: DrawState, rolls: Seq<Rolls>)
        requires
            self.run(s, rolls).failure is None,
        ensures
            self.run(s, rolls).state.pity == pity_run(s.pity, Banner::star_rolls(rolls)),
            self.run(s, rolls).items.len() == rolls.len(),
            forall|i: int|
                0 <= i < rolls.len() ==> (#[trigger] self.run(s, rolls).items[i]).0
                    == resolved_star(
                    pity_run(s.pity, Banner::star_rolls(rolls).take(i)),
                    rolls[i].star,
                ),
        decreases rolls.len(),
    {
        if rolls.len() > 0 {
            let front = rolls.drop_last();
            let last = rolls.len() - 1;
            self.lemma_run_moves_pity(s, front);
            assert(Banner::star_rolls(rolls).drop_last() =~= Banner::star_rolls(front));
            assert(Banner::star_rolls(rolls).last() == rolls.last().star);
            assert(Banner::star_rolls(rolls).take(last) =~= Banner::star_rolls(front));
            assert forall|i: int| 0 <= i < rolls.len() implies (#[trigger] self.run(
                s,
                rolls,
            ).items[i]).0 == resolved_star(
                pity_run(s.pity, Banner::star_rolls(rolls).take(i)),
                rolls[i].star,
            ) by {
                if i < last {
                    assert(self.run(s, rolls).items[i] == self.run(s, front).items[i]);
                    assert(Banner::star_rolls(rolls).take(i) =~= Banner::star_rolls(front).take(
                        i,
                    ));
                }
            }
        }
    }

    /// The rolls of a scripted source are fixed, so a headhunt from a state
    /// with such a source has one result and one state after it.
    pub proof fn lemma_scripted_draw_is_determined(&self, s: DrawState, a: Rolls, b: Rolls)
        requires
            s.rng.is_scripted(),
            self.rolls_fit(s, a),
            self.rolls_fit(s, b),
        ensures
            self.outcome(s, a) == self.outcome(s, b),
            self.state_after(s, a) == self.state_after(s, b),
            self.state_after(s, a).rng.is_scripted(),
    {
    }

    /// Rolls that fit a run fit each of its beginnings.
    pub proof fn lemma_run_fits_prefix(&self, s: DrawState, rolls: Seq<Rolls>, n: int)
        requires
            self.run_fits(s, rolls),
            0 <= n <= rolls.len(),
        ensures
            self.run_fits(s, rolls.take(n)),
        decreases rolls.len(),
    {
        if n == rolls.len() {
            assert(rolls.take(n) =~= rolls);
        } else {
            self.lemma_run_fits_prefix(s, rolls.drop_last(), n);
            assert(rolls.drop_last().take(n) =~= rolls.take(n));
        }
    }

    /// From a state with a scripted source, two runs agree as far as the
    /// shorter one goes.
    pub proof fn lemma_scripted_run_is_determined(
        &self,
        s: DrawState,
        a: Seq<Rolls>,
        b: Seq<Rolls>,
    )
        requires
            s.rng.is_scripted(),
            self.run_fits(s, a),
            self.run_fits(s, b),
            a.len() <= b.len(),
        ensures
            self.run(s, a) == self.run(s, b.take(a.len() as int)),
            self.run(s, a).state.rng.is_scripted(),
        decreases a.len(),
    {
        let n = a.len() as int;
        if n == 0 {
            assert(b.take(0) =~= Seq::<Rolls>::empty());
        } else {
            self.lemma_scripted_run_is_determined(s, a.drop_last(), b);
            self.lemma_run_fits_prefix(s, b, n);
            assert(b.take(n).drop_last() =~= b.take(n - 1));
            assert(b.take(n).last() == b[n - 1]);
            let before = self.run(s, a.drop_last());
            self.lemma_scripted_draw_is_determined(before.state, a.last(), b[n - 1]);
        }
    }

    /// With a scripted source a batch has one result: whatever two batches
    /// of `count` headhunts from the same banner return, it is the same
    /// operators or the same failure, and they leave the same state.
    pub proof fn lemma_scripted_batch_is_determined(
        pre: Banner,
        count: usize,
        rolls_a: Seq<Rolls>,
        out_a: Result<Vec<(u8, String, bool)>, EmptyPoolError>,
        post_a: Banner,
        rolls_b: Seq<Rolls>,
        out_b: Result<Vec<(u8, String, bool)>, EmptyPoolError>,
        post_b: Banner,
    )
        requires
            pre.rarity.rng.is_scripted(),
            Banner::drew_batch(pre, count, rolls_a, out_a, post_a),
            Banner::drew_batch(pre, count, rolls_b, out_b, post_b),
        ensures
            post_a.state() == post_b.state(),
            match (out_a, out_b) {
                (Ok(items_a), Ok(items_b)) => items_a@ == items_b@,
                (Err(e_a), Err(e_b)) => e_a == e_b,
                _ => false,
            },
    {
        let s = pre.state();
        if rolls_a.len() <= rolls_b.len() {
            pre.lemma_scripted_run_is_determined(s, rolls_a, rolls_b);
            pre.lemma_same_length(s, rolls_a, rolls_b);
        } else {
            pre.lemma_scripted_run_is_determined(s, rolls_b, rolls_a);
            pre.lemma_same_length(s, rolls_b, rolls_a);
        }
    }

    /// A run that agrees with the beginning of a longer one has not failed.
    proof fn lemma_same_length(&self, s: DrawState, a: Seq<Rolls>, b: Seq<Rolls>)
        requires
            self.run_fits(s, b),
            a.len() <= b.len(),
            self.run(s, a) == self.run(s, b.take(a.len() as int)),
        ensures
            a.len() < b.len() ==> self.run(s, a).failure is None,
            a.len() == b.len() ==> self.run(s, a) == self.run(s, b),
    {
        let n = a.len() as int;
        if n < b.len() {
            self.lemma_run_fits_prefix(s, b, n + 1);
            assert(b.take(n + 1).drop_last() =~= b.take(n));
        } else {
            assert(b.take(n) =~= b);
        }
    }

    /// A batch of no headhunts gives no operators and changes nothing.
    pub proof fn lemma_empty_batch(
        pre: Banner,
        out: Result<Vec<(u8, String, bool)>, EmptyPoolError>,
        post: Banner,
    )
        ensures
            Banner::drew_batch(pre, 0, Seq::empty(), out, post) <==> {
                &&& out is Ok
                &&& out->Ok_0@ == Seq::<(u8, String, bool)>::empty()
                &&& post.state() == pre.state()
                &&& post.same_setup(&pre)
            },
    {
    }

    /// A batch followed by one more headhunt is a batch of one more.
    pub proof fn lemma_draw_extends_batch(
        pre: Banner,
        count: usize,
        rolls: Seq<Rolls>,
        items: Vec<(u8, String, bool)>,
        mid: Banner,
        next: Rolls,
        out: Result<(u8, String, bool), EmptyPoolError>,
        post: Banner,
    )
        requires
            count < usize::MAX,
            Banner::drew_batch(pre, count, rolls, Ok(items), mid),
            Banner::drew(mid, next, out, post),
        ensures
            match out {
                Ok(item) => forall|more: Vec<(u8, String, bool)>|
                    more@ == items@.push(item) ==> #[trigger] Banner::drew_batch(
                        pre,
                        (count + 1) as usize,
                        rolls.push(next),
                        Ok(more),
                        post,
                    ),
                Err(e) => Banner::drew_batch(
                    pre,
                    (count + 1) as usize,
                    rolls.push(next),
                    Err(e),
                    post,
                ),
            },
    {
        assert(rolls.push(next).drop_last() =~= rolls);
        assert(mid.outcome(mid.state(), next) == pre.outcome(mid.state(), next));
    }

    /// A new banner of kind `banner_type` with empty pools, which rolls with
    /// the thread-local generator.
    pub fn from_banner_type(banner_type: BannerType) -> (made: Banner)
        ensures
            made.can_draw(),
            made.banner_type == banner_type,
            made.pool@ == Map::<u8, Vec<String>>::empty(),
            made.rate_up@ == Map::<u8, Vec<String>>::empty(),
            made.state() == (DrawState {
                pity: Pity { non_six_star_count: 0, guarantee_five_star: 10 },
                rng: RandomSource::Thread,
            }),
    {
        Banner::with_source(banner_type, RandomSource::Thread)
    }

    /// A new banner of kind `banner_type` with empty pools, which takes its
    /// rolls from `rng`.
    pub fn with_source(banner_type: BannerType, rng: RandomSource) -> (made: Banner)
        requires
            rng.wf(),
        ensures
            made.can_draw(),
            made.banner_type == banner_type,
            made.pool@ == Map::<u8, Vec<String>>::empty(),
            made.rate_up@ == Map::<u8, Vec<String>>::empty(),
            made.state() == (DrawState {
                pity: Pity { non_six_star_count: 0, guarantee_five_star: 10 },
                rng,
            }),
    {
        Banner {
            pool: HashMap::new(),
            rate_up: HashMap::new(),
            rarity: Rarity::with_source(banner_type, rng),
            banner_type,
        }
    }

    /// Lists `operators` as the pool of `star`, in place of any earlier list.
    pub fn set_pool(&mut self, star: u8, operators: Vec<String>)
        ensures
            final(self).pool@ == old(self).pool@.insert(star, operators),
            final(self).rate_up == old(self).rate_up,
            final(self).rarity == old(self).rarity,
            final(self).banner_type == old(self).banner_type,
    {
        self.pool.insert(star, operators);
    }

    /// Lists `rateup_operators` as the rate-up operators of `star`, in place
    /// of any earlier list.
    pub fn set_rate_up(&mut self, star: u8, rateup_operators: Vec<String>)
        ensures
            final(self).rate_up@ == old(self).rate_up@.insert(star, rateup_operators),
            final(self).pool == old(self).pool,
            final(self).rarity == old(self).rarity,
            final(self).banner_type == old(self).banner_type,
    {
        self.rate_up.insert(star, rateup_operators);
    }

    /// Picks an operator for a result of `star` stars: one of the rate-up
    /// list where `is_up` holds and that list has an entry, else one of the
    /// pool's list, at the place that one roll gives. Fails, with no roll
    /// taken, where that list is missing or empty.
    pub fn pick_operator(&mut self, star: u8, is_up: bool) -> (out: Result<String, EmptyPoolError>)
        requires
            old(self).rarity.rng.wf(),
        ensures
            final(self).same_setup(old(self)),
            final(self).rarity.pity() == old(self).rarity.pity(),
            final(self).rarity.rng.wf(),
            ({
                let names = candidates(old(self).pool@, old(self).rate_up@, star, is_up);
                match out {
                    Ok(name) => {
                        &&& names.len() > 0
                        &&& exists|pick: usize| #[trigger]
                            old(self).rarity.rng.yields(names.len() as usize, pick) && name
                                == names[pick as int]
                        &&& final(self).rarity.rng == old(self).rarity.rng.step()
                    },
                    Err(e) => {
                        &&& names.len() == 0
                        &&& e == (EmptyPoolError { star, is_up })
                        &&& final(self).rarity.rng == old(self).rarity.rng
                    },
                }
            }),
    {
        match select_list(&self.pool, &self.rate_up, star, is_up) {
            None => Err(EmptyPoolError { star, is_up }),
            Some(operators) => {
                let pick: usize = self.rarity.rng.next_below(operators.len());
                let name = operators[pick].clone();
                proof {
                    let names = candidates(old(self).pool@, old(self).rate_up@, star, is_up);
                    assert(old(self).rarity.rng.yields(names.len() as usize, pick));
                    assert(name == names[pick as int]);
                }
                Ok(name)
            },
        }
    }

    /// One headhunt: resolves star and rate-up flag, then picks an operator
    /// of the list for them with one more roll. Fails, with the counters
    /// moved on, where that list is missing or empty.
    pub fn gacha_operator(&mut self) -> (out: Result<(u8, String, bool), EmptyPoolError>)
        requires
            old(self).can_draw(),
        ensures
            exists|rolls: Rolls| #[trigger] Banner::drew(*old(self), rolls, out, *final(self)),
            match out {
                Ok(item) => 3 <= item.0 <= 6 && (item.2 ==> item.0 >= 5),
                Err(e) => 3 <= e.star <= 6 && (e.is_up ==> e.star >= 5),
            },
            final(self).can_draw(),
    {
        let (star_result, is_up) = self.rarity.it_gacha_time();
        let ghost star_rolls = choose|roll: u32, up_roll: u32|
            Rarity::gacha_time(
                old(self).rarity,
                roll,
                up_roll,
                (star_result, is_up),
                self.rarity,
            );
        let ghost mid = *self;
        let ghost names = candidates(self.pool@, self.rate_up@, star_result, is_up);
        match self.pick_operator(star_result, is_up) {
            Ok(name) => {
                let out = Ok((star_result, name, is_up));
                proof {
                    let pick = choose|pick: usize| #[trigger]
                        mid.rarity.rng.yields(names.len() as usize, pick) && name
                            == names[pick as int];
                    let rolls = Rolls { star: star_rolls.0, up: star_rolls.1, pick };
                    assert(Banner::drew(*old(self), rolls, out, *self));
                }
                out
            },
            Err(e) => {
                proof {
                    let rolls = Rolls { star: star_rolls.0, up: star_rolls.1, pick: 0 };
                    assert(Banner::drew(*old(self), rolls, Err(e), *self));
                }
                Err(e)
            },
        }
    }

    /// `count` headhunts in a row, each starting from the counters that the
    /// one before left. Stops at the first that finds no operator.
    pub fn gacha_times(&mut self, count: usize) -> (out: Result<
        Vec<(u8, String, bool)>,
        EmptyPoolError,
    >)
        requires
            old(self).can_draw(),
        ensures
            exists|rolls: Seq<Rolls>| #[trigger]
                Banner::drew_batch(*old(self), count, rolls, out, *final(self)),
            final(self).can_draw(),
    {
        let mut res: Vec<(u8, String, bool)> = Vec::new();
        let ghost mut rolls: Seq<Rolls> = Seq::empty();
        let mut done: usize = 0;
        while done < count
            invariant
                done <= count,
                rolls.len() == done,
                self.can_draw(),
                self.same_setup(old(self)),
                old(self).run_fits(old(self).state(), rolls),
                old(self).run(old(self).state(), rolls) == (Batch {
                    state: self.state(),
                    items: res@,
                    failure: None,
                }),
            decreases count - done,
        {
            let ghost before = *self;
            let drawn = self.gacha_operator();
            let ghost next = choose|r: Rolls| Banner::drew(before, r, drawn, *self);
            proof {
                assert(rolls.push(next).drop_last() =~= rolls);
                rolls = rolls.push(next);
                assert(before.outcome(before.state(), next) == old(self).outcome(
                    before.state(),
                    next,
                ));
            }
            match drawn {
                Ok(item) => {
                    res.push(item);
                },
                Err(e) => {
                    proof {
                        assert(Banner::drew_batch(*old(self), count, rolls, Err(e), *self));
                    }
                    return Err(e);
                },
            }
            done += 1;
        }
        proof {
            assert(Banner::drew_batch(*old(self), count, rolls, Ok(res), *self));
        }
        Ok(res)
    }

    /// Ten headhunts in a row.
    pub fn gacha_10_times(&mut self) -> (out: Result<Vec<(u8, String, bool)>, EmptyPoolError>)
        requires
            old(self).can_draw(),
        ensures
            exists|rolls: Seq<Rolls>| #[trigger]
                Banner::drew_batch(*old(self), 10, rolls, out, *final(self)),
            final(self).can_draw(),
    {
        self.gacha_times(10)
    }

    /// Replaces the two pity counters, as when another player takes over the
    /// banner. Pools, tables and the source of rolls stay as they are.
    pub fn set_dokutah_info(&mut self, non_six_star_count: u8, guarantee_five_star: i8)
        ensures
            final(self).rarity.pity() == (Pity { non_six_star_count, guarantee_five_star }),
            final(self).rarity.rng == old(self).rarity.rng,
            final(self).same_setup(old(self)),
    {
        self.rarity.non_six_star_count = non_six_star_count;
        self.rarity.guarantee_five_star = guarantee_five_star;
    }
}

} // verus!
