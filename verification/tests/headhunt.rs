use prts::banner::select_list;
use prts::{Banner, BannerType, EmptyPoolError, RandomSource, Rarity};
use std::collections::HashMap;

fn names(list: &[&str]) -> Vec<String> {
    list.iter().map(|s| s.to_string()).collect()
}

fn small_banner(kind: BannerType, script: Vec<usize>) -> Banner {
    let mut banner = Banner::with_source(kind, RandomSource::scripted(script));
    banner.set_pool(6, names(&["A"]));
    banner.set_pool(5, names(&["B"]));
    banner.set_pool(4, names(&["C"]));
    banner.set_pool(3, names(&["D"]));
    banner.set_rate_up(6, names(&["A2"]));
    banner.set_rate_up(5, names(&["B2"]));
    banner
}

fn wide_banner(kind: BannerType, source: RandomSource) -> Banner {
    let mut banner = Banner::with_source(kind, source);
    banner.set_pool(6, names(&["Silver Ash", "Angelina"]));
    banner.set_pool(5, names(&["Andreana", "Projekt Red"]));
    banner.set_pool(4, names(&["Utage", "Myrtle", "Gravel"]));
    banner.set_pool(3, names(&["Lava", "Hibiscus"]));
    banner.set_rate_up(6, names(&["Surtr", "Skadi"]));
    banner.set_rate_up(5, names(&["Specter", "Ptilopsis", "Lappland"]));
    banner
}

#[test]
fn zero_rolls_give_the_rate_up_six_star() {
    let mut banner = small_banner(BannerType::Standard, vec![0]);
    assert_eq!(banner.gacha_operator(), Ok((6, "A2".to_string(), true)));
    assert_eq!(banner.rarity.non_six_star_count, 0);
    assert_eq!(banner.rarity.guarantee_five_star, -1);
}

#[test]
fn empty_six_star_pool_is_an_error() {
    let mut banner = Banner::with_source(BannerType::Standard, RandomSource::scripted(vec![0]));
    banner.set_pool(6, Vec::new());
    banner.set_pool(5, names(&["B"]));
    banner.set_pool(4, names(&["C"]));
    banner.set_pool(3, names(&["D"]));
    assert_eq!(
        banner.gacha_operator(),
        Err(EmptyPoolError { star: 6, is_up: true })
    );
    // The counters moved on all the same.
    assert_eq!(banner.rarity.non_six_star_count, 0);
    assert_eq!(banner.rarity.guarantee_five_star, -1);
}

#[test]
fn missing_pool_is_an_error() {
    let mut banner = Banner::with_source(BannerType::Limited, RandomSource::scripted(vec![9999]));
    banner.set_pool(6, names(&["A"]));
    assert_eq!(
        banner.gacha_operator(),
        Err(EmptyPoolError { star: 3, is_up: false })
    );
    assert_eq!(banner.rarity.non_six_star_count, 1);
    assert_eq!(banner.rarity.guarantee_five_star, 9);
}

#[test]
fn tenth_headhunt_is_forced_to_five_stars() {
    let mut banner = small_banner(BannerType::Standard, vec![9999]);
    for i in 1..10u8 {
        assert_eq!(banner.gacha_operator(), Ok((3, "D".to_string(), false)));
        assert_eq!(banner.rarity.non_six_star_count, i);
        assert_eq!(banner.rarity.guarantee_five_star, 10 - i as i8);
    }
    assert_eq!(banner.gacha_operator(), Ok((5, "B".to_string(), false)));
    assert_eq!(banner.rarity.non_six_star_count, 10);
    assert_eq!(banner.rarity.guarantee_five_star, -1);
    // The guarantee is spent: the next one is a plain three star again.
    assert_eq!(banner.gacha_operator(), Ok((3, "D".to_string(), false)));
    assert_eq!(banner.rarity.guarantee_five_star, -2);
}

#[test]
fn tenth_headhunt_is_forced_after_four_stars_too() {
    let mut banner = small_banner(BannerType::Limited, vec![1000]);
    for _ in 0..9 {
        assert_eq!(banner.gacha_operator(), Ok((4, "C".to_string(), false)));
    }
    // Forced five star; the second roll, 1000, is below 5000: rate-up.
    assert_eq!(banner.gacha_operator(), Ok((5, "B2".to_string(), true)));
}

#[test]
fn natural_five_star_spends_the_guarantee() {
    let mut rarity = Rarity::with_source(BannerType::Standard, RandomSource::Thread);
    assert_eq!(rarity.resolve_star(200), 5);
    assert_eq!(rarity.guarantee_five_star, -1);
    assert_eq!(rarity.non_six_star_count, 1);
    for k in 0..20i8 {
        assert_eq!(rarity.resolve_star(9999), 3);
        assert_eq!(rarity.guarantee_five_star, -2 - k);
    }
}

#[test]
fn base_shares_have_exact_borders() {
    let cases: [(u32, u8); 8] = [
        (0, 6),
        (199, 6),
        (200, 5),
        (999, 5),
        (1000, 4),
        (5999, 4),
        (6000, 3),
        (9999, 3),
    ];
    for (roll, star) in cases {
        let mut rarity = Rarity::from_banner_type(BannerType::Standard);
        rarity.guarantee_five_star = -1;
        assert_eq!(rarity.resolve_star(roll), star, "roll {}", roll);
    }
}

#[test]
fn soft_pity_at_fifty_one_is_four_percent() {
    let mut rarity = Rarity::from_banner_type(BannerType::Standard);
    rarity.non_six_star_count = 51;
    assert_eq!(rarity.resolve_star(399), 6);
    assert_eq!(rarity.non_six_star_count, 0);

    let mut rarity = Rarity::from_banner_type(BannerType::Standard);
    rarity.non_six_star_count = 51;
    assert_eq!(rarity.resolve_star(400), 5);
    assert_eq!(rarity.non_six_star_count, 52);
}

#[test]
fn soft_pity_does_not_start_at_fifty() {
    let mut rarity = Rarity::from_banner_type(BannerType::Standard);
    rarity.non_six_star_count = 50;
    assert_eq!(rarity.resolve_star(200), 5);
}

#[test]
fn soft_pity_shifts_the_lower_shares() {
    // Streak 60: six star below 2200, five star below 3000, four below 8000.
    let cases: [(u32, u8); 6] = [(2199, 6), (2200, 5), (2999, 5), (3000, 4), (7999, 4), (8000, 3)];
    for (roll, star) in cases {
        let mut rarity = Rarity::from_banner_type(BannerType::Limited);
        rarity.non_six_star_count = 60;
        rarity.guarantee_five_star = -1;
        assert_eq!(rarity.resolve_star(roll), star, "roll {}", roll);
    }
}

#[test]
fn ninety_nine_without_six_star_makes_it_certain() {
    let mut banner = small_banner(BannerType::Standard, vec![9999]);
    banner.set_dokutah_info(99, -1);
    assert_eq!(banner.gacha_operator(), Ok((6, "A".to_string(), false)));
    assert_eq!(banner.rarity.non_six_star_count, 0);

    let mut banner = small_banner(BannerType::Standard, vec![9999]);
    banner.set_dokutah_info(98, -1);
    assert_eq!(banner.gacha_operator(), Ok((5, "B".to_string(), false)));
    assert_eq!(banner.rarity.non_six_star_count, 99);

    let mut banner = small_banner(BannerType::Standard, vec![9999]);
    banner.set_dokutah_info(255, 0);
    assert_eq!(banner.gacha_operator(), Ok((6, "A".to_string(), false)));
    assert_eq!(banner.rarity.non_six_star_count, 0);
}

#[test]
fn rate_up_borders_by_kind() {
    let limited = Rarity::from_banner_type(BannerType::Limited);
    let standard = Rarity::from_banner_type(BannerType::Standard);
    assert!(limited.is_rate_up(6, 6999));
    assert!(!limited.is_rate_up(6, 7000));
    assert!(standard.is_rate_up(6, 4999));
    assert!(!standard.is_rate_up(6, 5000));
    assert!(limited.is_rate_up(5, 4999));
    assert!(!limited.is_rate_up(5, 5000));
    assert!(standard.is_rate_up(5, 4999));
    assert!(!standard.is_rate_up(5, 5000));
    assert!(!limited.is_rate_up(4, 0));
    assert!(!standard.is_rate_up(3, 0));
}

#[test]
fn second_roll_is_taken_for_five_and_six_stars_only() {
    // Rolls: 0 gives six stars, 6999 makes it rate-up on a limited banner,
    // 1 picks the second rate-up name; 9999 gives three stars and the
    // next value, 0, picks the name.
    let mut banner = wide_banner(
        BannerType::Limited,
        RandomSource::scripted(vec![0, 6999, 1, 9999, 0]),
    );
    assert_eq!(banner.gacha_operator(), Ok((6, "Skadi".to_string(), true)));
    assert_eq!(banner.gacha_operator(), Ok((3, "Lava".to_string(), false)));
    // The script starts over.
    assert_eq!(banner.gacha_operator(), Ok((6, "Skadi".to_string(), true)));
}

#[test]
fn standard_six_star_above_half_is_not_rate_up() {
    let mut banner = wide_banner(
        BannerType::Standard,
        RandomSource::scripted(vec![0, 6999, 1]),
    );
    assert_eq!(banner.gacha_operator(), Ok((6, "Angelina".to_string(), false)));
}

#[test]
fn rate_up_without_a_list_falls_back_to_the_pool() {
    let mut banner = Banner::with_source(BannerType::Standard, RandomSource::scripted(vec![0]));
    banner.set_pool(6, names(&["A"]));
    assert_eq!(banner.gacha_operator(), Ok((6, "A".to_string(), true)));

    let mut banner = Banner::with_source(BannerType::Standard, RandomSource::scripted(vec![0]));
    banner.set_pool(6, names(&["A"]));
    banner.set_rate_up(6, Vec::new());
    assert_eq!(banner.gacha_operator(), Ok((6, "A".to_string(), true)));
}

#[test]
fn select_list_prefers_the_rate_up_list() {
    let mut pool: HashMap<u8, Vec<String>> = HashMap::new();
    let mut rate_up: HashMap<u8, Vec<String>> = HashMap::new();
    pool.insert(6, names(&["A"]));
    pool.insert(4, Vec::new());
    rate_up.insert(6, names(&["A2"]));
    rate_up.insert(5, names(&["B2"]));
    assert_eq!(select_list(&pool, &rate_up, 6, true), Some(&names(&["A2"])));
    assert_eq!(select_list(&pool, &rate_up, 6, false), Some(&names(&["A"])));
    assert_eq!(select_list(&pool, &rate_up, 5, true), Some(&names(&["B2"])));
    assert_eq!(select_list(&pool, &rate_up, 5, false), None);
    assert_eq!(select_list(&pool, &rate_up, 4, false), None);
    assert_eq!(select_list(&pool, &rate_up, 3, true), None);
}

#[test]
fn batch_equals_single_headhunts() {
    let script: Vec<usize> = vec![0, 9999, 250, 4999, 1, 7000, 6000, 1500, 3, 8000, 200, 5000, 2];
    for (streak, timer) in [(0u8, 10i8), (90, 0), (51, 3), (49, -1)] {
        let mut batch = wide_banner(BannerType::Limited, RandomSource::scripted(script.clone()));
        let mut single = wide_banner(BannerType::Limited, RandomSource::scripted(script.clone()));
        batch.set_dokutah_info(streak, timer);
        single.set_dokutah_info(streak, timer);
        let together = batch.gacha_10_times().unwrap();
        let mut one_by_one = Vec::new();
        for _ in 0..10 {
            one_by_one.push(single.gacha_operator().unwrap());
        }
        assert_eq!(together.len(), 10);
        assert_eq!(together, one_by_one);
        assert_eq!(batch.rarity.non_six_star_count, single.rarity.non_six_star_count);
        assert_eq!(batch.rarity.guarantee_five_star, single.rarity.guarantee_five_star);
    }
}

#[test]
fn batch_carries_pity_forward() {
    let mut banner = small_banner(BannerType::Standard, vec![9999]);
    let res = banner.gacha_10_times().unwrap();
    let mut expected = vec![(3u8, "D".to_string(), false); 9];
    expected.push((5, "B".to_string(), false));
    assert_eq!(res, expected);
    assert_eq!(banner.rarity.non_six_star_count, 10);
    assert_eq!(banner.rarity.guarantee_five_star, -1);
}

#[test]
fn batch_of_any_count() {
    let mut banner = small_banner(BannerType::Standard, vec![9999]);
    assert_eq!(banner.gacha_times(0), Ok(Vec::new()));
    assert_eq!(banner.rarity.non_six_star_count, 0);
    assert_eq!(banner.rarity.guarantee_five_star, 10);
    let res = banner.gacha_times(250).unwrap();
    assert_eq!(res.len(), 250);
    // Soft pity gives a six star on the 100th headhunt of each streak.
    assert_eq!(res[99], (6, "A".to_string(), false));
    assert_eq!(res[199], (6, "A".to_string(), false));
    assert_eq!(res.iter().filter(|r| r.0 == 6).count(), 2);
    assert_eq!(banner.rarity.non_six_star_count, 50);
}

#[test]
fn batch_stops_at_the_first_failure() {
    let mut banner = Banner::with_source(BannerType::Standard, RandomSource::scripted(vec![9999]));
    banner.set_pool(3, names(&["D"]));
    // The tenth headhunt is forced to five stars, for which nothing is listed.
    assert_eq!(
        banner.gacha_10_times(),
        Err(EmptyPoolError { star: 5, is_up: false })
    );
    assert_eq!(banner.rarity.non_six_star_count, 10);
    assert_eq!(banner.rarity.guarantee_five_star, -1);
}

#[test]
fn override_replaces_both_counters_only() {
    let mut banner = small_banner(BannerType::Limited, vec![9999]);
    banner.set_dokutah_info(90, 0);
    assert_eq!(banner.rarity.non_six_star_count, 90);
    assert_eq!(banner.rarity.guarantee_five_star, 0);
    assert_eq!(banner.banner_type, BannerType::Limited);
    assert_eq!(banner.pool.get(&6), Some(&names(&["A"])));
    assert_eq!(banner.rate_up.get(&5), Some(&names(&["B2"])));
    assert_eq!(banner.pool.len(), 4);
    assert_eq!(banner.rate_up.len(), 2);
}

#[test]
fn new_banner_is_fresh_and_empty() {
    let banner = Banner::from_banner_type(BannerType::Limited);
    assert_eq!(banner.banner_type, BannerType::Limited);
    assert!(banner.pool.is_empty());
    assert!(banner.rate_up.is_empty());
    assert_eq!(banner.rarity.non_six_star_count, 0);
    assert_eq!(banner.rarity.guarantee_five_star, 10);
    assert!(matches!(banner.rarity.rng, RandomSource::Thread));
    assert_eq!(banner.rarity.rarity.get(&6), Some(&200));
    assert_eq!(banner.rarity.rarity.get(&5), Some(&800));
    assert_eq!(banner.rarity.rarity.get(&4), Some(&5000));
    assert_eq!(banner.rarity.rarity.get(&3), None);
    assert_eq!(banner.rarity.rate_up_rate.get(&6), Some(&7000));
    assert_eq!(banner.rarity.rate_up_rate.get(&5), Some(&5000));
    let standard = Rarity::from_banner_type(BannerType::Standard);
    assert_eq!(standard.rate_up_rate.get(&6), Some(&5000));
    assert_eq!(standard.rate_up_rate.get(&5), Some(&5000));
}

#[test]
fn set_pool_replaces_an_earlier_list() {
    let mut banner = Banner::from_banner_type(BannerType::Standard);
    banner.set_pool(6, names(&["A"]));
    banner.set_pool(6, names(&["X", "Y"]));
    banner.set_rate_up(6, names(&["Z"]));
    assert_eq!(banner.pool.get(&6), Some(&names(&["X", "Y"])));
    assert_eq!(banner.rate_up.get(&6), Some(&names(&["Z"])));
    assert_eq!(banner.pool.len(), 1);
}

#[test]
fn scripted_source_cycles_and_reduces() {
    let mut source = RandomSource::scripted(vec![7, 12, 10000]);
    assert_eq!(source.next_below(10), 7);
    assert_eq!(source.next_below(10), 2);
    assert_eq!(source.next_below(10000), 0);
    assert_eq!(source.next_below(5), 2);
    assert_eq!(source.next_below(1), 0);
}

#[test]
fn thread_source_stays_below_the_bound() {
    let mut source = RandomSource::Thread;
    for bound in [1usize, 2, 3, 10, 10000] {
        for _ in 0..200 {
            assert!(source.next_below(bound) < bound);
        }
    }
    assert!((0..200).any(|_| source.next_below(10000) != 0));
}

#[test]
fn thread_headhunts_stay_in_range() {
    let mut banner = wide_banner(BannerType::Limited, RandomSource::Thread);
    let res = banner.gacha_times(5000).unwrap();
    assert_eq!(res.len(), 5000);
    for (star, name, is_up) in &res {
        assert!((3..=6).contains(star));
        let list = if *is_up { &banner.rate_up[star] } else { &banner.pool[star] };
        assert!(list.contains(name));
        assert!(!*is_up || *star >= 5);
    }
}

fn frequencies(kind: BannerType, six_up: f64) {
    let mut banner = wide_banner(kind, RandomSource::Thread);
    let total = 200_000usize;
    let mut stars = [0usize; 7];
    let mut ups = [0usize; 7];
    for _ in 0..total {
        banner.set_dokutah_info(0, -1);
        let (star, _, is_up) = banner.gacha_operator().unwrap();
        stars[star as usize] += 1;
        if is_up {
            ups[star as usize] += 1;
        }
    }
    let share = |n: usize| n as f64 / total as f64;
    assert!((share(stars[6]) - 0.02).abs() < 0.01);
    assert!((share(stars[5]) - 0.08).abs() < 0.01);
    assert!((share(stars[4]) - 0.50).abs() < 0.01);
    assert!((share(stars[3]) - 0.40).abs() < 0.01);
    assert!((ups[6] as f64 / stars[6] as f64 - six_up).abs() < 0.05);
    assert!((ups[5] as f64 / stars[5] as f64 - 0.50).abs() < 0.03);
    assert_eq!(ups[4] + ups[3], 0);
}

#[test]
fn frequencies_converge_on_a_limited_banner() {
    frequencies(BannerType::Limited, 0.70);
}

#[test]
fn frequencies_converge_on_a_standard_banner() {
    frequencies(BannerType::Standard, 0.50);
}

#[test]
fn pick_operator_takes_one_roll() {
    let mut banner = wide_banner(BannerType::Standard, RandomSource::scripted(vec![4, 2, 7]));
    // 4 % 3 = 1 in the rate-up list of five stars.
    assert_eq!(banner.pick_operator(5, true), Ok("Ptilopsis".to_string()));
    // 2 % 3 = 2 in the pool of four stars, which has no rate-up list.
    assert_eq!(banner.pick_operator(4, true), Ok("Gravel".to_string()));
    // 7 % 2 = 1 in the pool of six stars.
    assert_eq!(banner.pick_operator(6, false), Ok("Angelina".to_string()));
    // Nothing is listed for two stars; no roll is taken.
    assert_eq!(
        banner.pick_operator(2, false),
        Err(EmptyPoolError { star: 2, is_up: false })
    );
    assert_eq!(banner.pick_operator(5, true), Ok("Ptilopsis".to_string()));
    assert_eq!(banner.rarity.non_six_star_count, 0);
    assert_eq!(banner.rarity.guarantee_five_star, 10);
}

#[test]
fn guarantee_counter_set_to_one_forces_the_next() {
    let mut banner = small_banner(BannerType::Standard, vec![9999]);
    banner.set_dokutah_info(0, 1);
    assert_eq!(banner.gacha_operator(), Ok((5, "B".to_string(), false)));
    banner.set_dokutah_info(0, 0);
    assert_eq!(banner.gacha_operator(), Ok((3, "D".to_string(), false)));
    assert_eq!(banner.rarity.guarantee_five_star, -1);
}

#[test]
fn room_under_the_guarantee_counter() {
    let mut rarity = Rarity::from_banner_type(BannerType::Standard);
    assert!(rarity.timer_has_room());
    rarity.guarantee_five_star = -28;
    assert!(rarity.timer_has_room());
    rarity.guarantee_five_star = -29;
    assert!(!rarity.timer_has_room());
    rarity.non_six_star_count = 1;
    assert!(rarity.timer_has_room());
    rarity.non_six_star_count = 99;
    rarity.guarantee_five_star = -127;
    assert!(rarity.timer_has_room());
    rarity.non_six_star_count = 255;
    assert!(rarity.timer_has_room());
    rarity.guarantee_five_star = -128;
    assert!(!rarity.timer_has_room());
    rarity.non_six_star_count = 98;
    rarity.guarantee_five_star = -127;
    assert!(!rarity.timer_has_room());
}

#[test]
fn it_gacha_time_uses_the_engine_source() {
    let mut rarity = Rarity::with_source(
        BannerType::Limited,
        RandomSource::scripted(vec![199, 7000, 200, 4999, 6000]),
    );
    assert_eq!(rarity.it_gacha_time(), (6, false));
    assert_eq!(rarity.it_gacha_time(), (5, true));
    assert_eq!(rarity.it_gacha_time(), (3, false));
    assert_eq!(rarity.non_six_star_count, 2);
    assert_eq!(rarity.guarantee_five_star, -2);
}
