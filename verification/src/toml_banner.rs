//! The banner as a configuration document holds it: lists of operators
//! under keys that spell the star in decimal, and the banner's kind.

use crate::banner::Banner;
use crate::banner_rng::{BannerType, Rarity};
use crate::random_source::RandomSource;
use std::collections::HashMap;
use vstd::prelude::*;

verus! {

broadcast use vstd::std_specs::hash::group_hash_axioms;

/// Why a banner could not be set up from a configuration document.
#[derive(Debug, PartialEq, Eq)]
pub enum ConfigError {
    /// A key of a pool does not spell a star; holds the key.
    BadStar(String),
}

/// One list of a document: the key as written, and the operators under it.
pub type Entry = (String, Vec<String>);

/// A banner as a configuration document holds it. The entries of a pool
/// stand in the order of the document; where two keys spell the same star,
/// the later entry counts.
#[derive(Debug)]
pub struct TomlBanner {
    pub pool: Vec<Entry>,
    pub rate_up: Vec<Entry>,
    pub banner_type: BannerType,
}

/// The number that a string of decimal digits spells; `None` where a
/// character is no digit. The empty string spells zero.
pub open spec fn decimal_value(digits: Seq<char>) -> Option<nat>
    decreases digits.len(),
{
    if digits.len() == 0 {
        Some(0)
    } else {
        let last = digits.last() as u32;
        match decimal_value(digits.drop_last()) {
            Some(front) => if 48 <= last <= 57 {
                Some(10 * front + (last - 48) as nat)
            } else {
                None
            },
            None => None,
        }
    }
}

/// The star that a key spells: decimal digits, at least one, after an
/// optional plus sign, with a value of at most 255.
pub open spec fn star_of_key(key: Seq<char>) -> Option<u8> {
    let digits = if key.len() > 0 && key[0] == '+' {
        key.skip(1)
    } else {
        key
    };
    if digits.len() == 0 {
        None
    } else {
        match decimal_value(digits) {
            Some(value) => if value <= 255 {
                Some(value as u8)
            } else {
                None
            },
            None => None,
        }
    }
}

/// The lists of a pool, by star.
pub open spec fn lists_of(table: Map<u8, Vec<String>>) -> Map<u8, Seq<String>> {
    Map::new(|star: u8| table.contains_key(star), |star: u8| table[star]@)
}

/// The lists that `entries` give, by star, or the first key among them that
/// spells no star.
pub open spec fn parsed_lists(entries: Seq<Entry>) -> Result<Map<u8, Seq<String>>, Seq<char>>
    decreases entries.len(),
{
    if entries.len() == 0 {
        Ok(Map::empty())
    } else {
        match parsed_lists(entries.drop_last()) {
            Ok(lists) => match star_of_key(entries.last().0@) {
                Some(star) => Ok(lists.insert(star, entries.last().1@)),
                None => Err(entries.last().0@),
            },
            Err(key) => Err(key),
        }
    }
}

/// The star of the entry at `i`, where its key spells one.
pub open spec fn star_at(entries: Seq<Entry>, i: int) -> int {
    match star_of_key(entries[i].0@) {
        Some(star) => star as int,
        None => -1,
    }
}

/// Calls `str::parse::<u8>`, which reads an optional plus sign and then
/// decimal digits, and fails on an empty string, on any other character and
/// on a value above 255.
#[verifier::external_body]
fn parse_star(key: &str) -> (star: Option<u8>)
    ensures
        star == star_of_key(key@),
{
    key.parse::<u8>().ok()
}

/// The decimal digits of `n`, without a sign and without leading zeros.
pub open spec fn decimal_digits(n: nat) -> Seq<char>
    decreases n,
{
    if n < 10 {
        seq![(48 + n) as u8 as char]
    } else {
        decimal_digits(n / 10).push((48 + n % 10) as u8 as char)
    }
}

/// The decimal digits of a number spell that number.
pub proof fn lemma_digits_spell(n: nat)
    ensures
        decimal_digits(n).len() > 0,
        decimal_digits(n)[0] != '+',
        decimal_value(decimal_digits(n)) == Some(n),
    decreases n,
{
    let digits = decimal_digits(n);
    if n < 10 {
        assert(digits.drop_last() =~= Seq::<char>::empty());
        assert(decimal_value(digits.drop_last()) == Some(0nat));
        assert(digits.last() as u32 == 48 + n);
    } else {
        lemma_digits_spell(n / 10);
        assert(digits.drop_last() =~= decimal_digits(n / 10));
        assert(digits.last() as u32 == 48 + n % 10);
        assert(digits[0] == decimal_digits(n / 10)[0]);
    }
}

/// Calls `to_string` on a `u8`, which writes the number in decimal, without
/// a sign and without leading zeros.
#[verifier::external_body]
fn star_key(star: u8) -> (key: String)
    ensures
        key@ == decimal_digits(star as nat),
{
    star.to_string()
}

/// A copy of `operators`.
fn copy_list(operators: &Vec<String>) -> (copy: Vec<String>)
    ensures
        copy@ == operators@,
{
    let copy = operators.clone();
    assert(copy@ =~= operators@);
    copy
}

/// Once a key spells no star, the entries after it do not change what
/// reading gives.
pub proof fn lemma_bad_key_stays(entries: Seq<Entry>, i: int)
    requires
        0 <= i < entries.len(),
        parsed_lists(entries.take(i)) is Ok,
        star_of_key(entries[i].0@) is None,
    ensures
        parsed_lists(entries) == Err::<Map<u8, Seq<String>>, Seq<char>>(entries[i].0@),
    decreases entries.len(),
{
    if i == entries.len() - 1 {
        assert(entries.take(i) =~= entries.drop_last());
    } else {
        assert(entries.drop_last().take(i) =~= entries.take(i));
        lemma_bad_key_stays(entries.drop_last(), i);
    }
}

/// Reads the lists of a pool from the entries of a document.
pub fn read_lists(entries: &Vec<Entry>) -> (out: Result<HashMap<u8, Vec<String>>, ConfigError>)
    ensures
        match out {
            Ok(table) => parsed_lists(entries@) == Ok::<Map<u8, Seq<String>>, Seq<char>>(
                lists_of(table@),
            ),
            Err(ConfigError::BadStar(key)) => parsed_lists(entries@) == Err::<
                Map<u8, Seq<String>>,
                Seq<char>,
            >(key@),
        },
{
    let mut table: HashMap<u8, Vec<String>> = HashMap::new();
    let mut i: usize = 0;
    proof {
        assert(entries@.take(0) =~= Seq::<Entry>::empty());
        assert(lists_of(table@) =~= Map::<u8, Seq<String>>::empty());
    }
    while i < entries.len()
        invariant
            i <= entries.len(),
            parsed_lists(entries@.take(i as int)) == Ok::<Map<u8, Seq<String>>, Seq<char>>(
                lists_of(table@),
            ),
        decreases entries.len() - i,
    {
        let ghost before = table@;
        proof {
            assert(entries@.take(i + 1).drop_last() =~= entries@.take(i as int));
            assert(entries@.take(i + 1).last() == entries@[i as int]);
        }
        match parse_star(entries[i].0.as_str()) {
            Some(star) => {
                let list = copy_list(&entries[i].1);
                table.insert(star, list);
                proof {
                    assert(lists_of(table@) =~= lists_of(before).insert(star, entries@[i as int].1@));
                }
            },
            None => {
                proof {
                    lemma_bad_key_stays(entries@, i as int);
                }
                return Err(ConfigError::BadStar(entries[i].0.clone()));
            },
        }
        i += 1;
    }
    proof {
        assert(entries@.take(i as int) =~= entries@);
    }
    Ok(table)
}

/// The entries spell stars in rising order, so none is spelled twice.
pub open spec fn ascending(entries: Seq<Entry>) -> bool {
    forall|i: int, j: int|
        #![trigger star_at(entries, i), star_at(entries, j)]
        0 <= i < j < entries.len() ==> 0 <= star_at(entries, i) < star_at(entries, j)
}

/// Every entry spells a star below `limit`.
pub open spec fn stars_below(entries: Seq<Entry>, limit: int) -> bool {
    forall|i: int| 0 <= i < entries.len() ==> 0 <= #[trigger] star_at(entries, i) < limit
}

/// The lists of the stars below `limit`.
pub open spec fn lists_below(lists: Map<u8, Seq<String>>, limit: int) -> Map<u8, Seq<String>> {
    lists.restrict(Set::new(|star: u8| (star as int) < limit))
}

/// Key and operators of each entry, as plain values.
pub open spec fn views_of(entries: Seq<Entry>) -> Seq<(Seq<char>, Seq<String>)> {
    entries.map_values(|e: Entry| (e.0@, e.1@))
}

/// The entries that hold the lists of the stars below `limit`: one for each
/// star that has a list, under the star's decimal digits, in rising order.
pub open spec fn written(lists: Map<u8, Seq<String>>, limit: int) -> Seq<(Seq<char>, Seq<String>)>
    decreases limit,
{
    if limit <= 0 {
        Seq::empty()
    } else {
        let star = (limit - 1) as u8;
        if lists.contains_key(star) {
            written(lists, limit - 1).push((decimal_digits(star as nat), lists[star]))
        } else {
            written(lists, limit - 1)
        }
    }
}

/// Writes the lists of a pool as entries of a document, in the order of
/// their stars. Reading the entries gives the lists back.
pub fn write_lists(table: &HashMap<u8, Vec<String>>) -> (entries: Vec<Entry>)
    ensures
        views_of(entries@) == written(lists_of(table@), 256),
        parsed_lists(entries@) == Ok::<Map<u8, Seq<String>>, Seq<char>>(lists_of(table@)),
        ascending(entries@),
{
    let mut entries: Vec<Entry> = Vec::new();
    let mut next: u16 = 0;
    proof {
        assert(views_of(entries@) =~= written(lists_of(table@), 0));
        assert(lists_below(lists_of(table@), 0) =~= Map::<u8, Seq<String>>::empty());
    }
    while next < 256
        invariant
            next <= 256,
            parsed_lists(entries@) == Ok::<Map<u8, Seq<String>>, Seq<char>>(
                lists_below(lists_of(table@), next as int),
            ),
            views_of(entries@) == written(lists_of(table@), next as int),
            stars_below(entries@, next as int),
            ascending(entries@),
        decreases 256 - next,
    {
        let star: u8 = next as u8;
        let ghost before = entries@;
        let ghost shown = lists_below(lists_of(table@), next as int);
        if let Some(list) = table.get(&star) {
            let key = star_key(star);
            let copy = copy_list(list);
            entries.push((key, copy));
            proof {
                lemma_digits_spell(star as nat);
                assert(star_of_key(key@) == Some(star));
                assert(entries@.drop_last() =~= before);
                assert(views_of(entries@) =~= views_of(before).push((key@, list@)));
                assert(entries@.last().0@ == key@);
                assert forall|i: int| 0 <= i < before.len() implies star_at(entries@, i)
                    == star_at(before, i) by {
                    assert(entries@[i] == before[i]);
                }
                assert(star_at(entries@, before.len() as int) == star);
                assert forall|i: int| 0 <= i < entries@.len() implies 0 <= #[trigger] star_at(
                    entries@,
                    i,
                ) < next + 1 by {
                    if i < before.len() {
                        assert(star_at(before, i) < next);
                    }
                }
                assert forall|i: int, j: int|
                    #![trigger star_at(entries@, i), star_at(entries@, j)]
                    0 <= i < j < entries@.len() implies 0 <= star_at(entries@, i) < star_at(
                    entries@,
                    j,
                ) by {
                    assert(star_at(before, i) < next);
                    if j < before.len() {
                        assert(star_at(before, i) < star_at(before, j));
                    }
                }
                assert(shown.insert(star, list@) =~= lists_below(lists_of(table@), next + 1));
            }
        } else {
            proof {
                assert(shown =~= lists_below(lists_of(table@), next + 1));
            }
        }
        next += 1;
    }
    proof {
        assert(lists_below(lists_of(table@), 256) =~= lists_of(table@));
    }
    entries
}

impl TomlBanner {
    /// The document that holds `banner`: its lists by star, and its kind.
    pub fn from_banner(banner: &Banner) -> (doc: TomlBanner)
        ensures
            doc.banner_type == banner.banner_type,
            views_of(doc.pool@) == written(lists_of(banner.pool@), 256),
            views_of(doc.rate_up@) == written(lists_of(banner.rate_up@), 256),
            parsed_lists(doc.pool@) == Ok::<Map<u8, Seq<String>>, Seq<char>>(
                lists_of(banner.pool@),
            ),
            parsed_lists(doc.rate_up@) == Ok::<Map<u8, Seq<String>>, Seq<char>>(
                lists_of(banner.rate_up@),
            ),
            ascending(doc.pool@),
            ascending(doc.rate_up@),
    {
        TomlBanner {
            pool: write_lists(&banner.pool),
            rate_up: write_lists(&banner.rate_up),
            banner_type: banner.banner_type,
        }
    }
}

impl Banner {
    /// A new banner with the pools and the kind of `doc`, which takes its
    /// rolls from `rng`. Fails on the first key, of the pool and then of the
    /// rate-up pool, that spells no star.
    pub fn from_toml_banner(doc: &TomlBanner, rng: RandomSource) -> (out: Result<
        Banner,
        ConfigError,
    >)
        requires
            rng.wf(),
        ensures
            match out {
                Ok(banner) => {
                    &&& parsed_lists(doc.pool@) == Ok::<Map<u8, Seq<String>>, Seq<char>>(
                        lists_of(banner.pool@),
                    )
                    &&& parsed_lists(doc.rate_up@) == Ok::<Map<u8, Seq<String>>, Seq<char>>(
                        lists_of(banner.rate_up@),
                    )
                    &&& banner.banner_type == doc.banner_type
                    &&& banner.can_draw()
                    &&& banner.rarity.non_six_star_count == 0
                    &&& banner.rarity.guarantee_five_star == 10
                    &&& banner.rarity.rng == rng
                },
                Err(ConfigError::BadStar(key)) => match parsed_lists(doc.pool@) {
                    Err(bad) => key@ == bad,
                    Ok(_) => parsed_lists(doc.rate_up@) == Err::<Map<u8, Seq<String>>, Seq<char>>(
                        key@,
                    ),
                },
            },
    {
        let pool = match read_lists(&doc.pool) {
            Ok(table) => table,
            Err(e) => {
                return Err(e);
            },
        };
        let rate_up = match read_lists(&doc.rate_up) {
            Ok(table) => table,
            Err(e) => {
                return Err(e);
            },
        };
        Ok(
            Banner {
                pool,
                rate_up,
                banner_type: doc.banner_type,
                rarity: Rarity::with_source(doc.banner_type, rng),
            },
        )
    }
}

} // verus!
