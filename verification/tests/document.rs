use prts::toml_banner::{read_lists, write_lists};
use prts::{Banner, BannerType, ConfigError, RandomSource, TomlBanner};

fn list(items: &[&str]) -> Vec<String> {
    items.iter().map(|s| s.to_string()).collect()
}

fn entry(key: &str, items: &[&str]) -> (String, Vec<String>) {
    (key.to_string(), list(items))
}

#[test]
fn document_becomes_a_fresh_banner() {
    let doc = TomlBanner {
        pool: vec![
            entry("6", &["A"]),
            entry("5", &["B"]),
            entry("4", &["C"]),
            entry("3", &["D"]),
        ],
        rate_up: vec![entry("6", &["A2"]), entry("5", &["B2"])],
        banner_type: BannerType::Limited,
    };
    let mut banner = Banner::from_toml_banner(&doc, RandomSource::scripted(vec![0])).unwrap();
    assert_eq!(banner.banner_type, BannerType::Limited);
    assert_eq!(banner.pool.len(), 4);
    assert_eq!(banner.pool.get(&6), Some(&list(&["A"])));
    assert_eq!(banner.pool.get(&3), Some(&list(&["D"])));
    assert_eq!(banner.rate_up.len(), 2);
    assert_eq!(banner.rate_up.get(&5), Some(&list(&["B2"])));
    assert_eq!(banner.rarity.non_six_star_count, 0);
    assert_eq!(banner.rarity.guarantee_five_star, 10);
    assert_eq!(banner.rarity.rate_up_rate.get(&6), Some(&7000));
    assert_eq!(banner.gacha_operator(), Ok((6, "A2".to_string(), true)));
}

#[test]
fn key_that_spells_no_star_is_refused() {
    for bad in ["six", "", "+", "-6", "6 ", " 6", "256", "1000", "6.0", "0x6"] {
        let doc = TomlBanner {
            pool: vec![entry("6", &["A"]), entry(bad, &["B"]), entry("also bad", &["C"])],
            rate_up: vec![entry("worse", &["A2"])],
            banner_type: BannerType::Standard,
        };
        let got = Banner::from_toml_banner(&doc, RandomSource::Thread);
        assert_eq!(got.err(), Some(ConfigError::BadStar(bad.to_string())), "key {:?}", bad);
    }
}

#[test]
fn bad_rate_up_key_is_refused() {
    let doc = TomlBanner {
        pool: vec![entry("6", &["A"])],
        rate_up: vec![entry("5", &["B2"]), entry("top", &["A2"])],
        banner_type: BannerType::Standard,
    };
    let got = Banner::from_toml_banner(&doc, RandomSource::Thread);
    assert_eq!(got.err(), Some(ConfigError::BadStar("top".to_string())));
}

#[test]
fn keys_may_carry_a_plus_sign_and_zeros() {
    let entries = vec![
        entry("+6", &["A"]),
        entry("005", &["B"]),
        entry("255", &["C"]),
        entry("0", &["D"]),
    ];
    let table = read_lists(&entries).unwrap();
    assert_eq!(table.len(), 4);
    assert_eq!(table.get(&6), Some(&list(&["A"])));
    assert_eq!(table.get(&5), Some(&list(&["B"])));
    assert_eq!(table.get(&255), Some(&list(&["C"])));
    assert_eq!(table.get(&0), Some(&list(&["D"])));
}

#[test]
fn later_entry_of_a_star_counts() {
    let entries = vec![entry("6", &["A"]), entry("06", &["X", "Y"])];
    let table = read_lists(&entries).unwrap();
    assert_eq!(table.len(), 1);
    assert_eq!(table.get(&6), Some(&list(&["X", "Y"])));
}

#[test]
fn no_entries_give_an_empty_pool() {
    let table = read_lists(&Vec::new()).unwrap();
    assert!(table.is_empty());
    assert!(write_lists(&table).is_empty());
}

#[test]
fn banner_is_written_in_star_order() {
    let mut banner = Banner::from_banner_type(BannerType::Limited);
    banner.set_pool(6, list(&["A", "AA"]));
    banner.set_pool(3, list(&["D"]));
    banner.set_pool(255, list(&["top"]));
    banner.set_pool(0, Vec::new());
    banner.set_rate_up(5, list(&["B2"]));
    let doc = TomlBanner::from_banner(&banner);
    assert_eq!(doc.banner_type, BannerType::Limited);
    assert_eq!(
        doc.pool,
        vec![
            entry("0", &[]),
            entry("3", &["D"]),
            entry("6", &["A", "AA"]),
            entry("255", &["top"]),
        ]
    );
    assert_eq!(doc.rate_up, vec![entry("5", &["B2"])]);
}

#[test]
fn written_banner_reads_back() {
    let mut banner = Banner::from_banner_type(BannerType::Standard);
    banner.set_pool(6, list(&["Silver Ash", "Angelina"]));
    banner.set_pool(5, list(&["Andreana"]));
    banner.set_pool(4, list(&["Utage", "Myrtle"]));
    banner.set_pool(3, list(&["Lava"]));
    banner.set_rate_up(6, list(&["Surtr"]));
    banner.set_rate_up(5, list(&["Specter", "Lappland"]));
    let doc = TomlBanner::from_banner(&banner);
    let back = Banner::from_toml_banner(&doc, RandomSource::Thread).unwrap();
    assert_eq!(back.pool, banner.pool);
    assert_eq!(back.rate_up, banner.rate_up);
    assert_eq!(back.banner_type, banner.banner_type);
}
