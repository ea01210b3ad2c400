use rumpus_ce::decode::error::{field_path_string, index_path_string};
use rumpus_ce::endpoints::{key_info_path, levels_path, players_by_ids_path, players_path};
use rumpus_ce::query::{LevelSearch, LevelSortProperty, PlayerSearch, PlayerSortProperty};
use rumpus_ce::text::{bool_str, decimal_string, parse_integer, push_decimal, push_nat};
use rumpus_ce::{API_URL, BETA_URL};

#[test]
fn decimal_numerals() {
    assert_eq!(decimal_string(0), "0");
    assert_eq!(decimal_string(7), "7");
    assert_eq!(decimal_string(10), "10");
    assert_eq!(decimal_string(-1), "-1");
    assert_eq!(decimal_string(1234567890), "1234567890");
    assert_eq!(decimal_string(i64::MAX), "9223372036854775807");
    assert_eq!(decimal_string(i64::MIN), "-9223372036854775808");
    let mut out = String::from("n=");
    push_nat(&mut out, u64::MAX);
    push_decimal(&mut out, -40);
    assert_eq!(out, "n=18446744073709551615-40");
}

#[test]
fn words_for_booleans() {
    assert_eq!(bool_str(true), "true");
    assert_eq!(bool_str(false), "false");
}

#[test]
fn numerals_are_read_within_bounds() {
    assert_eq!(parse_integer("0", -5, 5), Some(0));
    assert_eq!(parse_integer("-5", -5, 5), Some(-5));
    assert_eq!(parse_integer("5", -5, 5), Some(5));
    assert_eq!(parse_integer("6", -5, 5), None);
    assert_eq!(parse_integer("-6", -5, 5), None);
    assert_eq!(parse_integer("-0", -5, 5), Some(0));
    assert_eq!(parse_integer("005", -5, 5), Some(5));
    assert_eq!(parse_integer("", -5, 5), None);
    assert_eq!(parse_integer("-", -5, 5), None);
    assert_eq!(parse_integer("+5", -5, 5), None);
    assert_eq!(parse_integer("5 ", -5, 5), None);
    assert_eq!(parse_integer("--5", -5, 5), None);
    assert_eq!(parse_integer("1.0", -5, 5), None);
    assert_eq!(parse_integer("٣", -5, 5), None);
    assert_eq!(parse_integer("2147483647", i32::MIN, i32::MAX), Some(i32::MAX));
    assert_eq!(parse_integer("-2147483648", i32::MIN, i32::MAX), Some(i32::MIN));
    assert_eq!(parse_integer("2147483648", i32::MIN, i32::MAX), None);
    assert_eq!(parse_integer("99999999999999999999999999", i32::MIN, i32::MAX), None);
    assert_eq!(parse_integer("3", 5, -5), None);
}

#[test]
fn numerals_round_trip() {
    for n in [i32::MIN, -1000, -10, -9, -1, 0, 1, 9, 10, 11, 99, 100, 65535, i32::MAX] {
        assert_eq!(parse_integer(&decimal_string(n as i64), i32::MIN, i32::MAX), Some(n));
    }
}

#[test]
fn paths_into_a_document() {
    assert_eq!(field_path_string("", "data"), "data");
    assert_eq!(field_path_string("data[3]", "stats"), "data[3].stats");
    assert_eq!(index_path_string("data", 0), "data[0]");
    assert_eq!(index_path_string("data[1].records.HighScore", 12), "data[1].records.HighScore[12]");
}

#[test]
fn endpoint_paths() {
    assert_eq!(key_info_path(), "delegation/keys/@this");
    assert_eq!(players_by_ids_path("m7n6j8,pg11x1"), "levelhead/players?userIds=m7n6j8,pg11x1");
    let players = PlayerSearch::new()
        .sort(PlayerSortProperty::CreatedAt, false)
        .limit(16)
        .unwrap()
        .include_aliases(true)
        .include_my_interactions(true);
    assert_eq!(
        players_path(&players),
        "levelhead/players?sort=createdAt&limit=16&includeAliases=true&includeMyInteractions=true"
    );
    let levels = LevelSearch::new()
        .include_aliases(true)
        .include_beta(true)
        .include_my_interactions(true)
        .include_records(true)
        .include_stats(true)
        .limit(64)
        .unwrap()
        .sort(LevelSortProperty::CreatedAt, true);
    assert_eq!(
        levels_path(&levels),
        "levelhead/levels?sort=-createdAt&limit=64&includeStats=true&includeRecords=true\
         &includeAliases=true&includeMyInteractions=true&includeBeta=true"
    );
    assert_eq!(players_path(&PlayerSearch::new()), "levelhead/players?");
    assert_eq!(levels_path(&LevelSearch::new()), "levelhead/levels?");
}

#[test]
fn api_urls() {
    assert_eq!(API_URL, "https://www.bscotch.net/api/");
    assert_eq!(BETA_URL, "https://beta.bscotch.net/api/");
}
