use std::collections::HashSet;

use iso3166_1::{all, lookup_by_alpha2, lookup_by_alpha3, lookup_by_name, lookup_by_num, CountryCode};

fn record(alpha2: &str, alpha3: &str, name: &str, num: &str) -> CountryCode {
    CountryCode {
        alpha2: alpha2.to_string(),
        alpha3: alpha3.to_string(),
        name: name.to_string(),
        num: num.to_string(),
    }
}

#[test]
fn all_has_every_record() {
    assert_eq!(all().len(), 249);
}

#[test]
fn all_keeps_authored_order() {
    let codes = all();
    assert_eq!(codes[0], record("AF", "AFG", "Afghanistan", "004"));
    assert_eq!(codes[1], record("AL", "ALB", "Albania", "008"));
    assert_eq!(codes[248], record("ZM", "ZMB", "Zambia", "894"));
}

#[test]
fn all_codes_are_unique() {
    let codes = all();
    let alpha2: HashSet<&str> = codes.iter().map(|c| c.alpha2.as_str()).collect();
    let alpha3: HashSet<&str> = codes.iter().map(|c| c.alpha3.as_str()).collect();
    let num: HashSet<&str> = codes.iter().map(|c| c.num.as_str()).collect();
    let names: HashSet<&str> = codes.iter().map(|c| c.name.as_str()).collect();
    assert_eq!(alpha2.len(), codes.len());
    assert_eq!(alpha3.len(), codes.len());
    assert_eq!(num.len(), codes.len());
    assert_eq!(names.len(), codes.len());
}

#[test]
fn all_records_are_well_formed() {
    for c in all() {
        assert_eq!(c.alpha2.len(), 2);
        assert!(c.alpha2.chars().all(|ch| ch.is_ascii_uppercase()));
        assert_eq!(c.alpha3.len(), 3);
        assert!(c.alpha3.chars().all(|ch| ch.is_ascii_uppercase()));
        assert_eq!(c.num.len(), 3);
        assert!(c.num.chars().all(|ch| ch.is_ascii_digit()));
        assert!(!c.name.is_empty());
        assert!(!c.name.ends_with(' '));
    }
}

#[test]
fn round_trip_by_alpha2() {
    for c in all() {
        assert_eq!(lookup_by_alpha2(&c.alpha2), Some(c.clone()));
    }
}

#[test]
fn round_trip_by_alpha3() {
    for c in all() {
        assert_eq!(lookup_by_alpha3(&c.alpha3), Some(c.clone()));
    }
}

#[test]
fn round_trip_by_num() {
    for c in all() {
        assert_eq!(lookup_by_num(&c.num), Some(c.clone()));
    }
}

#[test]
fn round_trip_by_name() {
    for c in all() {
        assert_eq!(lookup_by_name(&c.name), Some(c.clone()));
    }
}

#[test]
fn unknown_keys_are_not_found() {
    assert_eq!(lookup_by_alpha2("ZZ"), None);
    assert_eq!(lookup_by_num("999"), None);
    assert_eq!(lookup_by_name("Nonexistentland"), None);
    assert_eq!(lookup_by_alpha3("ZZZ"), None);
}

#[test]
fn alpha2_ignores_letter_case() {
    let us = record("US", "USA", "United States of America", "840");
    assert_eq!(lookup_by_alpha2("US"), Some(us.clone()));
    assert_eq!(lookup_by_alpha2("us"), Some(us.clone()));
    assert_eq!(lookup_by_alpha2("uS"), Some(us));
}

#[test]
fn alpha3_ignores_letter_case() {
    let fr = record("FR", "FRA", "France", "250");
    assert_eq!(lookup_by_alpha3("fra"), Some(fr.clone()));
    assert_eq!(lookup_by_alpha3("FrA"), Some(fr));
}

#[test]
fn alpha3_finds_france() {
    assert_eq!(lookup_by_alpha3("FRA"), Some(record("FR", "FRA", "France", "250")));
}

#[test]
fn num_finds_afghanistan() {
    assert_eq!(lookup_by_num("004"), Some(record("AF", "AFG", "Afghanistan", "004")));
}

#[test]
fn name_keeps_non_ascii_letters() {
    assert_eq!(lookup_by_name("Côte d'Ivoire"), Some(record("CI", "CIV", "Côte d'Ivoire", "384")));
    assert_eq!(lookup_by_name("Åland Islands"), Some(record("AX", "ALA", "Åland Islands", "248")));
    assert_eq!(lookup_by_alpha2("re").map(|c| c.name), Some("Réunion".to_string()));
}

#[test]
fn name_is_case_sensitive() {
    assert_eq!(lookup_by_name("france"), None);
    assert_eq!(lookup_by_name("FRANCE"), None);
    assert_eq!(lookup_by_name("France"), Some(record("FR", "FRA", "France", "250")));
}

#[test]
fn partial_keys_are_not_found() {
    assert_eq!(lookup_by_alpha2(""), None);
    assert_eq!(lookup_by_alpha2("U"), None);
    assert_eq!(lookup_by_alpha2("USA"), None);
    assert_eq!(lookup_by_alpha3("US"), None);
    assert_eq!(lookup_by_num("4"), None);
    assert_eq!(lookup_by_num("0040"), None);
    assert_eq!(lookup_by_name("Fran"), None);
    assert_eq!(lookup_by_name("France "), None);
    assert_eq!(lookup_by_name(""), None);
}

#[test]
fn lowercase_is_not_folded_for_other_characters() {
    assert_eq!(lookup_by_alpha2("u5"), None);
    assert_eq!(lookup_by_alpha2("ÜS"), None);
}

#[test]
fn changing_a_result_leaves_the_table() {
    let mut codes = all();
    codes[0].name.push_str(" (changed)");
    codes.truncate(3);
    let mut found = lookup_by_alpha2("FR").unwrap();
    found.alpha3 = "XXX".to_string();
    let fresh = all();
    assert_eq!(fresh.len(), 249);
    assert_eq!(fresh[0].name, "Afghanistan");
    assert_eq!(lookup_by_alpha3("FRA").map(|c| c.alpha2), Some("FR".to_string()));
}

#[test]
fn all_is_the_same_on_every_call() {
    assert_eq!(all(), all());
}
