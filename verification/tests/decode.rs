use rumpus_ce::decode::field::{
    defaulted_flag, defaulted_percent, defaulted_stat, member, optional_flag, optional_stat,
    optional_text, read_text_list, required_flag, required_real, required_small, required_stat,
    required_text, required_text_list,
};
use rumpus_ce::decode::level::{level, level_interactions, level_stats};
use rumpus_ce::decode::player::{alias, player, player_stats};
use rumpus_ce::decode::{
    decode_key_info, decode_levels, decode_player, decode_players, players_response, DecodeError,
};
use rumpus_ce::json::{Json, SyntaxError};
use rumpus_ce::types::{
    Alias, AliasType, DelegationKeyInfo, LevelContents, LevelInteractions, PlayerInteractions,
    PlayerStats, Rumpus,
};

fn text(s: &str) -> Json {
    Json::Text(s.to_string())
}

fn number(s: &str) -> Json {
    Json::Number(s.to_string())
}

fn object(members: Vec<(&str, Json)>) -> Json {
    Json::Object(members.into_iter().map(|(k, v)| (k.to_string(), v)).collect())
}

fn fields(members: Vec<(&str, Json)>) -> Vec<(String, Json)> {
    members.into_iter().map(|(k, v)| (k.to_string(), v)).collect()
}

fn missing(path: &str) -> DecodeError {
    DecodeError::MissingField { path: path.to_string() }
}

fn wrong(path: &str) -> DecodeError {
    DecodeError::WrongType { path: path.to_string() }
}

const SPARSE_STATS: &str =
    r#"{"Subscribers": 7, "PlayTime": 3600, "Crowns": 2, "Shoes": 5, "NumFollowing": 1}"#;

#[test]
fn parse_reads_every_kind_of_value() {
    let json =
        Json::parse(r#" {"b": [true, false, null], "a": "x\ny", "c": {"n": -12}} "#).unwrap();
    assert_eq!(
        json,
        object(vec![
            ("a", text("x\ny")),
            ("b", Json::Array(vec![Json::Bool(true), Json::Bool(false), Json::Null])),
            ("c", object(vec![("n", number("-12"))])),
        ])
    );
    assert_eq!(Json::parse("null"), Ok(Json::Null));
    assert_eq!(Json::parse("[]"), Ok(Json::Array(vec![])));
    assert_eq!(Json::parse("{}"), Ok(Json::Object(vec![])));
    assert_eq!(Json::parse("\"{}\""), Ok(text("{}")));
}

#[test]
fn parse_keeps_numbers_as_numerals() {
    assert_eq!(Json::parse("0"), Ok(number("0")));
    assert_eq!(Json::parse("-1"), Ok(number("-1")));
    assert_eq!(Json::parse("2147483648"), Ok(number("2147483648")));
    assert_eq!(Json::parse("18446744073709551615"), Ok(number("18446744073709551615")));
    assert_eq!(Json::parse("12.5"), Ok(number("12.5")));
    assert_eq!(Json::parse("3.0"), Ok(number("3.0")));
    assert_eq!(Json::parse("-0"), Ok(number("-0.0")));
}

#[test]
fn parse_reports_where_the_text_stops_being_json() {
    assert_eq!(Json::parse(r#"{"a":}"#), Err(SyntaxError { line: 1, column: 6 }));
    assert_eq!(Json::parse("[1, 2"), Err(SyntaxError { line: 1, column: 5 }));
    assert_eq!(Json::parse("{\n  \"a\": 1,\n  oops\n}"), Err(SyntaxError { line: 3, column: 3 }));
    assert_eq!(Json::parse("[] x"), Err(SyntaxError { line: 1, column: 4 }));
    assert!(Json::parse("").is_err());
}

#[test]
fn parse_copies_deep_documents() {
    let depth = 100;
    let body = format!("{}7{}", "[".repeat(depth), "]".repeat(depth));
    let mut json = Json::parse(&body).unwrap();
    for _ in 0..depth {
        json = match json {
            Json::Array(mut items) => {
                assert_eq!(items.len(), 1);
                items.pop().unwrap()
            }
            other => panic!("expected a list, found {:?}", other),
        };
    }
    assert_eq!(json, number("7"));
    let body = format!("{}7{}", "[".repeat(200), "]".repeat(200));
    assert_eq!(Json::parse(&body), Err(SyntaxError { line: 1, column: 128 }));
}

#[test]
fn parse_keeps_the_order_of_lists() {
    let json = Json::parse(r#"[3, "b", [1, 2], {"z": 1, "y": [true]}, 1]"#).unwrap();
    assert_eq!(
        json,
        Json::Array(vec![
            number("3"),
            text("b"),
            Json::Array(vec![number("1"), number("2")]),
            object(vec![("y", Json::Array(vec![Json::Bool(true)])), ("z", number("1"))]),
            number("1"),
        ])
    );
}

#[test]
fn member_finds_the_first_of_equal_keys() {
    let members = fields(vec![("a", number("1")), ("b", number("2")), ("a", number("3"))]);
    assert_eq!(member(&members, "a"), Some(&number("1")));
    assert_eq!(member(&members, "b"), Some(&number("2")));
    assert_eq!(member(&members, "c"), None);
    assert_eq!(member(&members, ""), None);
    assert_eq!(member(&members, "A"), None);
}

#[test]
fn stats_missing_zero_defaults_decode_to_zero() {
    let json = Json::parse(SPARSE_STATS).unwrap();
    let stats = player_stats(&json, "").unwrap();
    assert_eq!(
        stats,
        PlayerStats {
            subscribers: 7,
            published: 0,
            plays: 0,
            play_time: 3600,
            crowns: 2,
            shoes: 5,
            levels_played: 0,
            wins: 0,
            fails: 0,
            num_following: 1,
            d_b_comp: None,
            tower_trials: 0,
            time_trophies: 0,
            fave_gen: 0,
            like_gen: 0,
            bucks_tipped: 0,
            tips_gotten: 0,
            ach_points: None,
            campaign_progress: 0,
        }
    );
}

#[test]
fn stats_keep_negative_counters() {
    let json = Json::parse(
        r#"{"Subscribers": 0, "PlayTime": 0, "Crowns": -1, "Shoes": -1, "NumFollowing": 0,
            "Published": -2, "DBComp": 3}"#,
    )
    .unwrap();
    let stats = player_stats(&json, "").unwrap();
    assert_eq!(stats.shoes, -1);
    assert_eq!(stats.crowns, -1);
    assert_eq!(stats.published, -2);
    assert_eq!(stats.d_b_comp, Some(3));
    assert_eq!(stats.plays, 0);
}

#[test]
fn stats_with_every_field() {
    let json = Json::parse(
        r#"{"Subscribers": 1, "Published": 2, "Plays": 3, "PlayTime": 4, "Crowns": 5,
            "Shoes": 6, "LevelsPlayed": 7, "Wins": 8, "Fails": 9, "NumFollowing": 10,
            "DBComp": 11, "ChalWins": 12, "TimeTrophies": 13, "FaveGen": 14, "LikeGen": 15,
            "BucksTipped": 16, "TipsGotten": 17, "AchPoints": 18, "CampaignProg": 100,
            "Unknown": "ignored"}"#,
    )
    .unwrap();
    assert_eq!(
        player_stats(&json, ""),
        Ok(PlayerStats {
            subscribers: 1,
            published: 2,
            plays: 3,
            play_time: 4,
            crowns: 5,
            shoes: 6,
            levels_played: 7,
            wins: 8,
            fails: 9,
            num_following: 10,
            d_b_comp: Some(11),
            tower_trials: 12,
            time_trophies: 13,
            fave_gen: 14,
            like_gen: 15,
            bucks_tipped: 16,
            tips_gotten: 17,
            ach_points: Some(18),
            campaign_progress: 100,
        })
    );
}

#[test]
fn stats_report_the_first_field_that_is_wrong() {
    let json = Json::parse(r#"{"Subscribers": 7, "Crowns": 2, "Shoes": "5", "NumFollowing": 1}"#)
        .unwrap();
    assert_eq!(player_stats(&json, "data[2].stats"), Err(missing("data[2].stats.PlayTime")));
    let json =
        Json::parse(r#"{"Subscribers": 7, "PlayTime": 1, "Crowns": 2, "Shoes": "5"}"#).unwrap();
    assert_eq!(player_stats(&json, "stats"), Err(wrong("stats.Shoes")));
    let json = Json::parse(
        r#"{"Subscribers": 7, "PlayTime": 1, "Crowns": 2, "Shoes": 5, "NumFollowing": 1,
            "Wins": null}"#,
    )
    .unwrap();
    assert_eq!(player_stats(&json, ""), Err(wrong("Wins")));
    let json = Json::parse(
        r#"{"Subscribers": 7, "PlayTime": 1, "Crowns": 2, "Shoes": 5, "NumFollowing": 1,
            "CampaignProg": 101}"#,
    )
    .unwrap();
    assert_eq!(player_stats(&json, ""), Err(wrong("CampaignProg")));
    assert_eq!(player_stats(&Json::Array(vec![]), "stats"), Err(wrong("stats")));
    assert_eq!(player_stats(&Json::Null, ""), Err(wrong("")));
}

#[test]
fn counters_have_to_be_whole_and_to_fit() {
    let members = fields(vec![
        ("max", number("2147483647")),
        ("min", number("-2147483648")),
        ("over", number("2147483648")),
        ("under", number("-2147483649")),
        ("huge", number("123456789012345678901234567890")),
        ("real", number("1.0")),
        ("exp", number("1e3")),
        ("text", text("1")),
        ("byte", number("255")),
        ("all", number("100")),
        ("more", number("101")),
        ("word", number("256")),
        ("minus", number("-1")),
        ("zeros", number("007")),
        ("dash", number("-")),
        ("none", number("")),
    ]);
    assert_eq!(required_stat(&members, "max", ""), Ok(2147483647));
    assert_eq!(required_stat(&members, "min", ""), Ok(-2147483648));
    assert_eq!(required_stat(&members, "over", ""), Err(wrong("over")));
    assert_eq!(required_stat(&members, "under", "p"), Err(wrong("p.under")));
    assert_eq!(required_stat(&members, "huge", ""), Err(wrong("huge")));
    assert_eq!(required_stat(&members, "real", ""), Err(wrong("real")));
    assert_eq!(required_stat(&members, "exp", ""), Err(wrong("exp")));
    assert_eq!(required_stat(&members, "text", ""), Err(wrong("text")));
    assert_eq!(required_stat(&members, "zeros", ""), Ok(7));
    assert_eq!(required_stat(&members, "dash", ""), Err(wrong("dash")));
    assert_eq!(required_stat(&members, "none", ""), Err(wrong("none")));
    assert_eq!(required_stat(&members, "absent", "a.b"), Err(missing("a.b.absent")));
    assert_eq!(required_small(&members, "byte", ""), Ok(255));
    assert_eq!(required_small(&members, "word", ""), Err(wrong("word")));
    assert_eq!(required_small(&members, "minus", ""), Err(wrong("minus")));
    assert_eq!(required_small(&members, "absent", ""), Err(missing("absent")));
    assert_eq!(defaulted_percent(&members, "absent", ""), Ok(0));
    assert_eq!(defaulted_percent(&members, "all", ""), Ok(100));
    assert_eq!(defaulted_percent(&members, "more", ""), Err(wrong("more")));
    assert_eq!(defaulted_percent(&members, "byte", "x"), Err(wrong("x.byte")));
    assert_eq!(defaulted_percent(&members, "minus", "x"), Err(wrong("x.minus")));
}

#[test]
fn absence_means_what_the_rule_of_the_field_says() {
    let members = fields(vec![
        ("n", number("4")),
        ("f", Json::Bool(true)),
        ("t", text("hello")),
        ("null", Json::Null),
        ("r", number("0.25")),
    ]);
    assert_eq!(defaulted_stat(&members, "n", ""), Ok(4));
    assert_eq!(defaulted_stat(&members, "gone", ""), Ok(0));
    assert_eq!(defaulted_stat(&members, "null", ""), Err(wrong("null")));
    assert_eq!(defaulted_stat(&members, "t", ""), Err(wrong("t")));
    assert_eq!(optional_stat(&members, "n", ""), Ok(Some(4)));
    assert_eq!(optional_stat(&members, "gone", ""), Ok(None));
    assert_eq!(optional_stat(&members, "null", ""), Ok(None));
    assert_eq!(optional_stat(&members, "f", ""), Err(wrong("f")));
    assert_eq!(required_flag(&members, "f", ""), Ok(true));
    assert_eq!(required_flag(&members, "gone", ""), Err(missing("gone")));
    assert_eq!(required_flag(&members, "n", ""), Err(wrong("n")));
    assert_eq!(defaulted_flag(&members, "gone", ""), Ok(false));
    assert_eq!(defaulted_flag(&members, "f", ""), Ok(true));
    assert_eq!(defaulted_flag(&members, "null", ""), Err(wrong("null")));
    assert_eq!(optional_flag(&members, "null", ""), Ok(None));
    assert_eq!(optional_flag(&members, "f", ""), Ok(Some(true)));
    assert_eq!(optional_flag(&members, "t", ""), Err(wrong("t")));
    assert_eq!(required_text(&members, "t", ""), Ok("hello".to_string()));
    assert_eq!(required_text(&members, "null", ""), Err(wrong("null")));
    assert_eq!(required_text(&members, "gone", ""), Err(missing("gone")));
    assert_eq!(optional_text(&members, "t", ""), Ok(Some("hello".to_string())));
    assert_eq!(optional_text(&members, "null", ""), Ok(None));
    assert_eq!(optional_text(&members, "gone", ""), Ok(None));
    assert_eq!(optional_text(&members, "n", ""), Err(wrong("n")));
    assert_eq!(required_real(&members, "r", ""), Ok("0.25".to_string()));
    assert_eq!(required_real(&members, "n", ""), Ok("4".to_string()));
    assert_eq!(required_real(&members, "t", ""), Err(wrong("t")));
    assert_eq!(required_real(&members, "gone", ""), Err(missing("gone")));
}

#[test]
fn text_lists_hold_nothing_but_text() {
    let good = Json::Array(vec![text("a"), text(""), text("c")]);
    assert_eq!(
        read_text_list(&good),
        Some(vec!["a".to_string(), "".to_string(), "c".to_string()])
    );
    assert_eq!(read_text_list(&Json::Array(vec![])), Some(vec![]));
    assert_eq!(read_text_list(&Json::Array(vec![text("a"), Json::Null])), None);
    assert_eq!(read_text_list(&text("a")), None);
    let members = fields(vec![("list", good), ("odd", Json::Array(vec![number("1")]))]);
    assert_eq!(required_text_list(&members, "list", "").unwrap().len(), 3);
    assert_eq!(required_text_list(&members, "odd", "k"), Err(wrong("k.odd")));
    assert_eq!(required_text_list(&members, "gone", "k"), Err(missing("k.gone")));
}

#[test]
fn anonymous_alias_has_neither_kind_nor_name() {
    let json = Json::parse(r#"{"userId": "pg11x1", "anonymous": true}"#).unwrap();
    let decoded = alias(&json, "").unwrap();
    assert!(matches!(
        decoded,
        Alias { alias_type: None, anonymous: Some(true), alias: None, user_id: _ }
    ));
    assert_eq!(decoded.user_id, "pg11x1");
}

#[test]
fn alias_kind_is_read_from_context() {
    let json =
        Json::parse(r#"{"userId": "m7n6j8", "alias": "Someone", "context": "levelhead"}"#).unwrap();
    assert_eq!(
        alias(&json, ""),
        Ok(Alias {
            user_id: "m7n6j8".to_string(),
            alias_type: Some(AliasType::Levelhead),
            alias: Some("Someone".to_string()),
            anonymous: None,
        })
    );
    let json = Json::parse(r#"{"userId": "m7n6j8", "context": "levelhead-safe"}"#).unwrap();
    assert_eq!(alias(&json, "").unwrap().alias_type, Some(AliasType::LevelheadSafe));
    let json = Json::parse(r#"{"userId": "m7n6j8", "context": "Levelhead"}"#).unwrap();
    assert_eq!(alias(&json, "alias"), Err(wrong("alias.context")));
    let json = Json::parse(r#"{"userId": "m7n6j8", "alias_type": "levelhead"}"#).unwrap();
    assert_eq!(alias(&json, "").unwrap().alias_type, None);
    let json = Json::parse(r#"{"alias": "Someone"}"#).unwrap();
    assert_eq!(alias(&json, "data[0].alias"), Err(missing("data[0].alias.userId")));
}

#[test]
fn envelope_without_data_decodes() {
    let answer = decode_players(r#"{"message": "Unauthorized", "location": "/api/docs"}"#).unwrap();
    assert_eq!(
        answer,
        Rumpus {
            data: None,
            message: Some("Unauthorized".to_string()),
            location: Some("/api/docs".to_string()),
        }
    );
    let answer = decode_players("{}").unwrap();
    assert_eq!(answer, Rumpus { data: None, message: None, location: None });
    let answer = decode_player(r#"{"data": null}"#).unwrap();
    assert_eq!(answer.data, None);
    let answer = decode_levels(r#"{"meta": {}, "errors": []}"#).unwrap();
    assert_eq!(answer.data, None);
    let answer = decode_key_info("{}").unwrap();
    assert_eq!(answer.data, None);
}

#[test]
fn envelope_has_to_be_an_object() {
    assert_eq!(decode_players("[]"), Err(wrong("")));
    assert_eq!(decode_players("null"), Err(wrong("")));
    assert_eq!(decode_players(r#"{"data": {}}"#), Err(wrong("data")));
    assert_eq!(decode_player(r#"{"data": []}"#), Err(wrong("data")));
    assert_eq!(decode_players(r#"{"data": [], "message": 4}"#), Err(wrong("message")));
    assert_eq!(decode_players(r#"{"data": [], "location": false}"#), Err(wrong("location")));
    assert_eq!(
        decode_players(r#"{"data": [], "message": "#),
        Err(DecodeError::Syntax { line: 1, column: 24 })
    );
    assert_eq!(decode_levels("nope"), Err(DecodeError::Syntax { line: 1, column: 2 }));
}

const PLAYERS: &str = r#"{"data": [
  {"_id": "5c7715223116090016409e56", "userId": "0ihetl",
   "createdAt": "2019-02-27T22:56:34.515Z", "updatedAt": "2021-05-01T00:00:00.000Z",
   "alias": {"userId": "0ihetl", "alias": "First", "context": "levelhead"},
   "interactions": {"following": false},
   "stats": {"Subscribers": 3, "PlayTime": 120, "Crowns": 0, "Shoes": -1, "NumFollowing": 2}},
  {"_id": "5c7715223116090016409e57", "userId": "bscotch246",
   "createdAt": "2019-03-01T00:00:00.000Z", "updatedAt": "2021-05-02T00:00:00.000Z",
   "stats": {"Subscribers": 0, "PlayTime": 0, "Crowns": 0, "Shoes": 0, "NumFollowing": 0,
             "Published": -2}},
  {"_id": "5c7715223116090016409e58", "userId": "8mbjmz",
   "createdAt": "2019-03-02T00:00:00.000Z", "updatedAt": "2021-05-03T00:00:00.000Z",
   "stats": {"Subscribers": 0, "PlayTime": 0, "Crowns": -1, "Shoes": -1, "NumFollowing": 0,
             "DBComp": 3}},
  {"_id": "5c7715223116090016409e59", "userId": "pg11x1",
   "createdAt": "2019-03-03T00:00:00.000Z", "updatedAt": "2021-05-04T00:00:00.000Z",
   "alias": {"userId": "pg11x1", "anonymous": true},
   "stats": {"Subscribers": 0, "PlayTime": 0, "Crowns": 0, "Shoes": 0, "NumFollowing": 0}}
]}"#;

#[test]
fn special_players_decode() {
    let data = decode_players(PLAYERS).unwrap().data.expect("no data was returned");
    assert_eq!(data.len(), 4);

    assert_eq!(data[0].id, "5c7715223116090016409e56");
    assert_eq!(data[0].user_id, "0ihetl");
    assert_eq!(data[0].created_at, "2019-02-27T22:56:34.515Z");
    assert_eq!(data[0].updated_at, "2021-05-01T00:00:00.000Z");
    assert_eq!(data[0].stats.shoes, -1);
    assert_eq!(data[0].interactions, Some(PlayerInteractions { following: false }));
    assert_eq!(data[0].alias.as_ref().unwrap().alias_type, Some(AliasType::Levelhead));

    assert_eq!(data[1].user_id, "bscotch246");
    assert_eq!(data[1].stats.published, -2);
    assert_eq!(data[1].alias, None);
    assert_eq!(data[1].interactions, None);

    assert_eq!(data[2].user_id, "8mbjmz");
    assert_eq!(data[2].stats.shoes, -1);
    assert_eq!(data[2].stats.crowns, -1);
    assert_eq!(data[2].stats.d_b_comp, Some(3));

    assert_eq!(data[3].user_id, "pg11x1");
    assert!(matches!(
        data[3].alias,
        Some(Alias { alias_type: None, anonymous: Some(true), alias: None, user_id: _ })
    ));
}

#[test]
fn players_report_the_path_of_what_is_wrong() {
    let broken = PLAYERS.replace("\"Published\": -2", "\"Published\": 2.5");
    assert_eq!(decode_players(&broken), Err(wrong("data[1].stats.Published")));
    let broken = PLAYERS.replace("\"userId\": \"8mbjmz\",", "");
    assert_eq!(decode_players(&broken), Err(missing("data[2].userId")));
    let broken = PLAYERS.replace("{\"following\": false}", "{}");
    assert_eq!(decode_players(&broken), Err(missing("data[0].interactions.following")));
    let broken = PLAYERS.replace("{\"userId\": \"pg11x1\", \"anonymous\": true}", "7");
    assert_eq!(decode_players(&broken), Err(wrong("data[3].alias")));
    let broken = PLAYERS.replace("\"DBComp\": 3}}", "\"DBComp\": 3}, \"stats\": 1}");
    assert_eq!(decode_players(&broken), Err(wrong("data[2].stats")));
}

#[test]
fn the_first_item_with_an_error_decides() {
    let json = Json::parse(
        r#"{"data": [{"_id": "a"}, {"userId": "b"}], "message": 1}"#,
    )
    .unwrap();
    assert_eq!(players_response(&json), Err(missing("data[0].userId")));
    let json = Json::parse(r#"{"data": [1, 2]}"#).unwrap();
    assert_eq!(players_response(&json), Err(wrong("data[0]")));
}

#[test]
fn one_player_decodes() {
    let body = r#"{"data": {"_id": "i", "userId": "u", "createdAt": "c", "updatedAt": "d",
        "stats": {"Subscribers": 1, "PlayTime": 2, "Crowns": 3, "Shoes": 4, "NumFollowing": 5}}}"#;
    let found = decode_player(body).unwrap().data.unwrap();
    assert_eq!(found.id, "i");
    assert_eq!(found.stats.num_following, 5);
    let json = Json::parse(body).unwrap();
    match &json {
        Json::Object(members) => {
            assert_eq!(player(member(members, "data").unwrap(), "data"), Ok(found));
        }
        _ => panic!("the body is an object"),
    }
    assert_eq!(
        decode_player(
            r#"{"data": {"_id": "i", "userId": "u", "createdAt": "c", "updatedAt": "d"}}"#
        ),
        Err(missing("data.stats"))
    );
}

#[test]
fn key_info_decodes() {
    let answer = decode_key_info(
        r#"{"data": {"userId": "m7n6j8", "passId": "abc", "permissions": ["rce-lh-read"]}}"#,
    )
    .unwrap();
    assert_eq!(
        answer.data,
        Some(DelegationKeyInfo {
            user_id: "m7n6j8".to_string(),
            pass_id: "abc".to_string(),
            permissions: vec!["rce-lh-read".to_string()],
        })
    );
    assert_eq!(
        decode_key_info(r#"{"data": {"userId": "m7n6j8", "permissions": []}}"#),
        Err(missing("data.passId"))
    );
    assert_eq!(
        decode_key_info(r#"{"data": {"userId": "m7n6j8", "passId": "p", "permissions": [1]}}"#),
        Err(wrong("data.permissions"))
    );
}

const LEVEL: &str = r#"{"_id": "5e1", "cv": 3, "levelId": "best", "userId": "m7n6j8",
  "avatarId": "bureau-employee", "title": "A Title", "localeId": 1, "locale": "en",
  "createdAt": "2020-01-01", "updatedAt": "2020-01-02", "towerTrial": false,
  "requiredPlayers": 1, "creatorTime": 12.34, "tags": ["ltag_a", "ltag_b"],
  "tagNames": ["A", "B"],
  "content": {"World": 1, "Movement": 2, "Puzzles": 3, "Enemies": 4, "Hazards": 5}"#;

#[test]
fn level_decodes_without_its_optional_blocks() {
    let body = format!("{{\"data\": [{}}}]}}", LEVEL);
    let data = decode_levels(&body).unwrap().data.unwrap();
    assert_eq!(data.len(), 1);
    let found = &data[0];
    assert_eq!(found.id, "5e1");
    assert_eq!(found.cv, 3);
    assert_eq!(found.level_id, "best");
    assert_eq!(found.user_id, "m7n6j8");
    assert_eq!(found.alias, None);
    assert_eq!(found.avatar_id, "bureau-employee");
    assert_eq!(found.title, "A Title");
    assert_eq!(found.locale_id, 1);
    assert_eq!(found.locale, "en");
    assert_eq!(found.tower, None);
    assert_eq!(found.daily_build, None);
    assert!(!found.tower_trial);
    assert_eq!(found.required_players, 1);
    assert_eq!(found.creator_time, "12.34");
    assert_eq!(found.game_version, None);
    assert_eq!(found.tags, vec!["ltag_a".to_string(), "ltag_b".to_string()]);
    assert_eq!(found.tag_names, vec!["A".to_string(), "B".to_string()]);
    assert_eq!(
        found.content,
        LevelContents { world: 1, movement: 2, puzzles: 3, enemies: 4, hazards: 5 }
    );
    assert_eq!(found.stats, None);
    assert_eq!(found.records, None);
    assert_eq!(found.interactions, None);
    assert_eq!(
        found.interactions_or_default(),
        LevelInteractions { bookmarked: false, liked: false, favorited: false }
    );
}

#[test]
fn level_decodes_with_its_optional_blocks() {
    let body = format!(
        "{}, \"tower\": true, \"dailyBuild\": false, \"gameVersion\": \"1.2\", \
         \"alias\": {{\"userId\": \"m7n6j8\", \"alias\": \"Me\", \"context\": \"levelhead\"}}, \
         \"stats\": {{\"ClearRate\": 0.5, \"Diamonds\": 6, \"TimePerWin\": 33.25, \
         \"FailureRate\": 0.5, \"HiddenGem\": 9, \"Attempts\": 4}}, \
         \"records\": {{\"HighScore\": [{{\"userId\": \"u\", \"value\": 100, \
         \"createdAt\": \"c\", \"alias\": {{\"userId\": \"u\", \"anonymous\": true}}}}], \
         \"FastestTime\": []}}, \
         \"interactions\": {{\"liked\": true}}}}",
        LEVEL
    );
    let json = Json::parse(&body).unwrap();
    let found = level(&json, "").unwrap();
    assert_eq!(found.tower, Some(true));
    assert_eq!(found.daily_build, Some(false));
    assert_eq!(found.game_version, Some("1.2".to_string()));
    assert_eq!(found.alias.as_ref().unwrap().alias, Some("Me".to_string()));
    let stats = found.stats.as_ref().unwrap();
    assert_eq!(stats.attempts, 4);
    assert_eq!(stats.favorites, 0);
    assert_eq!(stats.likes, 0);
    assert_eq!(stats.perk_points, None);
    assert_eq!(stats.play_time, 0);
    assert_eq!(stats.players, 0);
    assert_eq!(stats.replay_value, 0);
    assert_eq!(stats.clear_rate, "0.5");
    assert_eq!(stats.diamonds, 6);
    assert_eq!(stats.successes, 0);
    assert_eq!(stats.time_per_win, "33.25");
    assert_eq!(stats.exposure_bucks, 0);
    assert_eq!(stats.failure_rate, "0.5");
    assert_eq!(stats.hidden_gem, 9);
    let records = found.records.as_ref().unwrap();
    assert_eq!(records.high_score.len(), 1);
    assert_eq!(records.high_score[0].user_id, "u");
    assert_eq!(records.high_score[0].value, "100");
    assert_eq!(records.high_score[0].created_at, "c");
    assert_eq!(records.high_score[0].alias.anonymous, Some(true));
    assert!(records.fastest_time.is_empty());
    assert_eq!(
        found.interactions,
        Some(LevelInteractions { bookmarked: false, liked: true, favorited: false })
    );
    assert_eq!(
        found.interactions_or_default(),
        LevelInteractions { bookmarked: false, liked: true, favorited: false }
    );
}

#[test]
fn level_blocks_report_what_is_wrong() {
    let json = Json::parse(r#"{"Diamonds": 6, "TimePerWin": 1, "FailureRate": 0, "HiddenGem": 0}"#)
        .unwrap();
    assert_eq!(level_stats(&json, "stats"), Err(missing("stats.ClearRate")));
    let json = Json::parse(
        r#"{"ClearRate": 1, "Diamonds": 300, "TimePerWin": 1, "FailureRate": 0, "HiddenGem": 0}"#,
    )
    .unwrap();
    assert_eq!(level_stats(&json, "stats"), Err(wrong("stats.Diamonds")));
    let json = Json::parse(r#"{"bookmarked": 1}"#).unwrap();
    assert_eq!(level_interactions(&json, "i"), Err(wrong("i.bookmarked")));
    assert_eq!(
        level_interactions(&Json::Object(vec![]), ""),
        Ok(LevelInteractions { bookmarked: false, liked: false, favorited: false })
    );
    assert_eq!(LevelInteractions::default(), LevelInteractions {
        bookmarked: false,
        liked: false,
        favorited: false
    });
    let body = format!("{{\"data\": [{}}}, {{}}]}}", LEVEL);
    assert_eq!(decode_levels(&body), Err(missing("data[1]._id")));
    let body = format!("{{\"data\": [{}, \"records\": {{\"HighScore\": [{{}}]}}}}]}}", LEVEL);
    assert_eq!(decode_levels(&body), Err(missing("data[0].records.HighScore[0].userId")));
}

#[test]
fn decode_error_messages() {
    assert_eq!(
        DecodeError::Syntax { line: 3, column: 14 }.to_string(),
        "invalid JSON at line 3 column 14"
    );
    assert_eq!(missing("data[0].userId").to_string(), "missing field `data[0].userId`");
    assert_eq!(wrong("data[10].stats.Shoes").to_string(), "wrong type for `data[10].stats.Shoes`");
    assert_eq!(wrong("").to_string(), "wrong type for ``");
}
