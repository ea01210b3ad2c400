use rumpus_ce::query::{
    LevelSearch, LevelSortProperty, LimitError, PlayerSearch, PlayerSortProperty, Sort,
};

#[test]
fn player_simple_query_string() -> Result<(), LimitError> {
    let q = PlayerSearch::new()
        .user_ids(vec!["test", "someone", "m7n6j8"])?
        .limit(13)?
        .include_aliases(false)
        .sort(PlayerSortProperty::CreatedAt, true);

    assert_eq!(
        q.to_string(),
        "userIds=test,someone,m7n6j8&sort=-createdAt&limit=13&includeAliases=false"
    );

    Ok(())
}

#[test]
fn level_simple_query_string() -> Result<(), LimitError> {
    let q = LevelSearch::new()
        .user_ids(vec!["test", "someone", "m7n6j8"])?
        .level_ids(vec!["best", "epic"])?
        .limit(14)?
        .include_records(true)
        .sort(LevelSortProperty::PlayTime, false);

    assert_eq!(
        q.to_string(),
        "userIds=test,someone,m7n6j8&levelIds=best,epic&sort=PlayTime&limit=14&includeRecords=true"
    );

    Ok(())
}

#[test]
fn limits_player_ok() {
    let x = PlayerSearch::new().user_ids(vec!["test"; PlayerSearch::MAX_USERS]);
    assert!(matches!(x, Result::Ok(_)));
    let x = PlayerSearch::new().limit(PlayerSearch::MAX_LIMIT as u8);
    assert!(matches!(x, Result::Ok(_)));
}

#[test]
fn limits_player_err() {
    let x = PlayerSearch::new().user_ids(vec!["test"; PlayerSearch::MAX_USERS + 1]);
    assert!(matches!(x, Result::Err(_)));
    let x = PlayerSearch::new().limit((PlayerSearch::MAX_LIMIT + 1) as u8);
    assert!(matches!(x, Result::Err(_)));
}

#[test]
fn limits_level_ok() {
    let x = LevelSearch::new().user_ids(vec!["test"; LevelSearch::MAX_USERS]);
    assert!(matches!(x, Result::Ok(_)));
    let x = LevelSearch::new().level_ids(vec!["test"; LevelSearch::MAX_LEVELS]);
    assert!(matches!(x, Result::Ok(_)));
    let x = LevelSearch::new().limit(LevelSearch::MAX_LIMIT as u8);
    assert!(matches!(x, Result::Ok(_)));
}

#[test]
fn limits_level_err() {
    let x = LevelSearch::new().user_ids(vec!["test"; LevelSearch::MAX_USERS + 1]);
    assert!(matches!(x, Result::Err(_)));
    let x = LevelSearch::new().level_ids(vec!["test"; LevelSearch::MAX_LEVELS + 1]);
    assert!(matches!(x, Result::Err(_)));
    let x = LevelSearch::new().limit((LevelSearch::MAX_LIMIT + 1) as u8);
    assert!(matches!(x, Result::Err(_)));
}

#[test]
fn empty_searches_encode_to_nothing() {
    assert_eq!(PlayerSearch::new().to_string(), "");
    assert_eq!(LevelSearch::new().to_string(), "");
    assert_eq!(PlayerSearch::default().to_string(), "");
    assert_eq!(LevelSearch::default().to_string(), "");
}

#[test]
fn sort_writes_a_dash_for_ascending() {
    assert_eq!(Sort::new(PlayerSortProperty::Shoes, true).to_string(), "-Shoes");
    assert_eq!(Sort::new(PlayerSortProperty::Shoes, false).to_string(), "Shoes");
    assert_eq!(Sort::new(LevelSortProperty::QAScore, true).to_string(), "-QAScore");
    assert_eq!(Sort::new(LevelSortProperty::HiddenGem, false).to_string(), "HiddenGem");
}

#[test]
fn player_sort_property_names() {
    assert_eq!(PlayerSortProperty::CreatedAt.to_string(), "createdAt");
    assert_eq!(PlayerSortProperty::UpdatedAt.to_string(), "updatedAt");
    assert_eq!(PlayerSortProperty::Subscribers.to_string(), "Subscribers");
    assert_eq!(PlayerSortProperty::PlayTime.to_string(), "PlayTime");
    assert_eq!(PlayerSortProperty::Plays.to_string(), "Plays");
    assert_eq!(PlayerSortProperty::Trophies.to_string(), "Trophies");
    assert_eq!(PlayerSortProperty::Shoes.to_string(), "Shoes");
    assert_eq!(PlayerSortProperty::Crowns.to_string(), "Crowns");
    assert_eq!(PlayerSortProperty::Published.to_string(), "Published");
}

#[test]
fn level_sort_property_names() {
    assert_eq!(LevelSortProperty::CreatedAt.to_string(), "createdAt");
    assert_eq!(LevelSortProperty::PlayTime.to_string(), "PlayTime");
    assert_eq!(LevelSortProperty::ReplayValue.to_string(), "ReplayValue");
    assert_eq!(LevelSortProperty::ExposureBucks.to_string(), "ExposureBucks");
    assert_eq!(LevelSortProperty::QAScore.to_string(), "QAScore");
    assert_eq!(LevelSortProperty::HiddenGem.to_string(), "HiddenGem");
}

#[test]
fn limit_error_carries_value_and_maximum() {
    let e = PlayerSearch::new().limit(65).unwrap_err();
    assert_eq!(e, LimitError { value: 65, maximum: 64 });
    let e = LevelSearch::new().limit(255).unwrap_err();
    assert_eq!(e, LimitError { value: 255, maximum: 64 });
    let e = PlayerSearch::new().user_ids(vec!["a"; 17]).unwrap_err();
    assert_eq!(e, LimitError { value: 17, maximum: 16 });
    let e = LevelSearch::new().user_ids(vec!["a"; 17]).unwrap_err();
    assert_eq!(e, LimitError { value: 17, maximum: 16 });
    let e = LevelSearch::new().level_ids(vec!["a"; 40]).unwrap_err();
    assert_eq!(e, LimitError { value: 40, maximum: 16 });
    assert_eq!(LimitError::new(3, 2), LimitError { value: 3, maximum: 2 });
}

#[test]
fn limit_error_message() {
    assert_eq!(
        LimitError::new(17, 16).to_string(),
        "value/amount of items of 17 is larger than maximum 16"
    );
    assert_eq!(
        LimitError::new(200, 64).to_string(),
        "value/amount of items of 200 is larger than maximum 64"
    );
}

#[test]
fn every_limit_up_to_the_maximum_is_written() {
    for n in 0..=64u8 {
        let q = PlayerSearch::new().limit(n).unwrap();
        assert_eq!(q.limit, Some(n));
        assert_eq!(q.to_string(), format!("limit={}", n));
        let q = LevelSearch::new().tower(true).limit(n).unwrap();
        assert_eq!(q.to_string(), format!("limit={}&tower=true", n));
    }
    for n in 65..=255u8 {
        assert_eq!(
            PlayerSearch::new().limit(n).unwrap_err(),
            LimitError { value: n as usize, maximum: 64 }
        );
        assert_eq!(
            LevelSearch::new().limit(n).unwrap_err(),
            LimitError { value: n as usize, maximum: 64 }
        );
    }
}

#[test]
fn user_ids_are_joined_in_input_order() {
    let q = PlayerSearch::new().user_ids(vec!["zz", "aa", "zz", "mm"]).unwrap();
    assert_eq!(q.to_string(), "userIds=zz,aa,zz,mm");
    let q = PlayerSearch::new().user_ids(vec![]).unwrap();
    assert_eq!(q.user_ids, Some(vec![]));
    assert_eq!(q.to_string(), "userIds=");
    let q = LevelSearch::new().level_ids(vec!["only"]).unwrap().include_beta(false);
    assert_eq!(q.to_string(), "levelIds=only&includeBeta=false");
}

#[test]
fn a_second_list_replaces_the_first() {
    let q = PlayerSearch::new()
        .user_ids(vec!["a", "b"])
        .unwrap()
        .user_ids(vec!["c"])
        .unwrap();
    assert_eq!(q.user_ids, Some(vec!["c".to_string()]));
    assert_eq!(q.to_string(), "userIds=c");
}

#[test]
fn setter_order_does_not_change_the_query() {
    let a = PlayerSearch::new()
        .min_subscribers(3)
        .include_aliases(true)
        .tiebreaker_item_id("5c77")
        .limit(5)
        .unwrap()
        .user_ids(vec!["x"])
        .unwrap();
    let b = PlayerSearch::new()
        .user_ids(vec!["x"])
        .unwrap()
        .limit(5)
        .unwrap()
        .tiebreaker_item_id("5c77")
        .include_aliases(true)
        .min_subscribers(3);
    assert_eq!(a, b);
    assert_eq!(a.to_string(), b.to_string());
    assert_eq!(a.to_string(), a.to_string());
    assert_eq!(
        a.to_string(),
        "userIds=x&limit=5&minSubscribers=3&includeAliases=true&tiebreakerItemId=5c77"
    );
}

#[test]
fn player_query_with_every_parameter() {
    let q = PlayerSearch::new()
        .tiebreaker_item_id("last")
        .include_my_interactions(true)
        .include_aliases(false)
        .max_updated_at("2021-04-01")
        .min_updated_at("2021-03-01")
        .max_created_at("2020-02-01")
        .min_created_at("2020-01-01")
        .min_play_time(-4)
        .max_play_time(2147483647)
        .min_subscribers(0)
        .max_subscribers(-2147483648)
        .user_ids(vec!["u1", "u2"])
        .unwrap()
        .limit(64)
        .unwrap()
        .sort(PlayerSortProperty::Crowns, false);
    assert_eq!(
        q.to_string(),
        "userIds=u1,u2&sort=Crowns&limit=64&maxSubscribers=-2147483648&minSubscribers=0\
         &maxPlayTime=2147483647&minPlayTime=-4&minCreatedAt=2020-01-01&maxCreatedAt=2020-02-01\
         &minUpdatedAt=2021-03-01&maxUpdatedAt=2021-04-01&includeAliases=false\
         &includeMyInteractions=true&tiebreakerItemId=last"
    );
}

#[test]
fn level_query_with_every_parameter() {
    let q = LevelSearch::new()
        .tiebreaker_item_id("last")
        .include_beta(true)
        .include_my_interactions(false)
        .max_created_at("2020-02-01")
        .min_created_at("2020-01-01")
        .max_seconds_ago(100)
        .min_seconds_ago(10)
        .max_diamonds(6)
        .min_diamonds(0)
        .diamonds(3)
        .max_hidden_gem(9)
        .min_hidden_gem(-9)
        .max_replay_value(8)
        .min_replay_value(7)
        .max_exposure_bucks(6)
        .min_exposure_bucks(5)
        .max_play_time(4)
        .min_play_time(3)
        .include_aliases(true)
        .include_records(false)
        .include_stats(true)
        .daily_build(false)
        .marketing(true)
        .tower(false)
        .tags("ltag_brawler")
        .limit(1)
        .unwrap()
        .sort(LevelSortProperty::ReplayValue, true)
        .level_ids(vec!["l1"])
        .unwrap()
        .user_ids(vec!["u1"])
        .unwrap();
    assert_eq!(
        q.to_string(),
        "userIds=u1&levelIds=l1&sort=-ReplayValue&limit=1&tags=ltag_brawler&tower=false\
         &marketing=true&dailyBuild=false&includeStats=true&includeRecords=false\
         &includeAliases=true&minPlayTime=3&maxPlayTime=4&minExposureBucks=5&maxExposureBucks=6\
         &minReplayValue=7&maxReplayValue=8&minHiddenGem=-9&maxHiddenGem=9&diamonds=3\
         &minDiamonds=0&maxDiamonds=6&minSecondsAgo=10&maxSecondsAgo=100\
         &minCreatedAt=2020-01-01&maxCreatedAt=2020-02-01&includeMyInteractions=false\
         &includeBeta=true&tiebreakerItemId=last"
    );
}

#[test]
fn tiebreaker_is_written_last() {
    let q = LevelSearch::new().tiebreaker_item_id("abc").include_beta(true).min_created_at("d");
    assert_eq!(q.to_string(), "minCreatedAt=d&includeBeta=true&tiebreakerItemId=abc");
    let q = PlayerSearch::new().tiebreaker_item_id("abc").include_my_interactions(true);
    assert_eq!(q.to_string(), "includeMyInteractions=true&tiebreakerItemId=abc");
}
