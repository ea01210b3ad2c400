//! Decoders for levels and for what belongs to them.

use crate::decode::error::{
    field_path, field_path_string, index_path, index_path_string, outcome, DecodeError,
    DecodeErrorView,
};
use crate::decode::field::{
    defaulted_flag, defaulted_flag_of, defaulted_stat, defaulted_stat_of, filled, lookup, member,
    member_filled, missing_field, optional_flag, optional_flag_of, optional_stat,
    optional_stat_of, optional_text, optional_text_of, required_flag, required_flag_of,
    required_real, required_real_of, required_small, required_small_of, required_stat,
    required_stat_of, required_text, required_text_list, required_text_list_of,
    required_text_of,
};
use crate::decode::player::{alias, alias_of};
use crate::json::{document, items_view, lemma_array_view, lemma_object_view, Json, JsonView};
use crate::types::{
    Level, LevelContents, LevelInteractions, LevelRecords, LevelRecordsView, LevelStats,
    LevelStatsView, LevelView, Record, RecordView, Rumpus, RumpusView,
};
use vstd::prelude::*;
use vstd::string::StringExecFns;

verus! {

/// One entry of a leaderboard.
#[verifier::opaque]
pub open spec fn record_of(json: JsonView, path: Seq<char>) -> Result<RecordView, DecodeErrorView> {
    match json {
        JsonView::Object(fields) => {
            let user_id = required_text_of(fields, "userId"@, path);
            let alias = match lookup(fields, "alias"@) {
                None => Err(DecodeErrorView::MissingField { path: field_path(path, "alias"@) }),
                Some(value) => alias_of(value, field_path(path, "alias"@)),
            };
            let value = required_real_of(fields, "value"@, path);
            let created_at = required_text_of(fields, "createdAt"@, path);
            if user_id is Err {
                Err(user_id->Err_0)
            } else if alias is Err {
                Err(alias->Err_0)
            } else if value is Err {
                Err(value->Err_0)
            } else if created_at is Err {
                Err(created_at->Err_0)
            } else {
                Ok(
                    RecordView {
                        user_id: user_id->Ok_0,
                        alias: alias->Ok_0,
                        value: value->Ok_0,
                        created_at: created_at->Ok_0,
                    },
                )
            }
        },
        _ => Err(DecodeErrorView::WrongType { path }),
    }
}

/// One entry of a leaderboard.
pub fn record(json: &Json, path: &str) -> (r: Result<Record, DecodeError>)
    ensures
        outcome(r) == record_of(json@, path@),
{
    proof {
        reveal(record_of);
    }
    match json {
        Json::Object(fields) => {
            proof {
                lemma_object_view(*fields);
            }
            let user_id = required_text(fields, "userId", path)?;
            let alias = match member(fields, "alias") {
                None => {
                    return Err(missing_field("alias", path));
                },
                Some(value) => {
                    let inner = field_path_string(path, "alias");
                    alias(value, inner.as_str())?
                },
            };
            let value = required_real(fields, "value", path)?;
            let created_at = required_text(fields, "createdAt", path)?;
            Ok(Record { user_id, alias, value, created_at })
        },
        _ => Err(DecodeError::WrongType { path: String::from_str(path) }),
    }
}

/// Nothing decodes as a leaderboard entry without the fields that have to
/// be there.
pub proof fn record_needs_its_fields(fields: Seq<(Seq<char>, JsonView)>, path: Seq<char>)
    requires
        record_of(JsonView::Object(fields), path) is Ok,
    ensures
        lookup(fields, "userId"@) is Some,
        lookup(fields, "alias"@) is Some,
        lookup(fields, "value"@) is Some,
        lookup(fields, "createdAt"@) is Some,
{
    reveal(record_of);
}

/// The first `count` items of a list of leaderboard entries, or the error of the first
/// item among them that has one.
pub open spec fn record_list_upto(
    items: Seq<JsonView>,
    path: Seq<char>,
    count: int,
) -> Result<Seq<RecordView>, DecodeErrorView>
    decreases count,
{
    if count <= 0 {
        Ok(Seq::empty())
    } else {
        match record_list_upto(items, path, count - 1) {
            Err(error) => Err(error),
            Ok(front) => match record_of(items[count - 1], index_path(path, count - 1)) {
                Err(error) => Err(error),
                Ok(found) => Ok(front.push(found)),
            },
        }
    }
}

/// A list of leaderboard entries: every item in order, or the error of the first item
/// that has one. Anything but a list is of the wrong type.
pub open spec fn record_list_of(
    json: JsonView,
    path: Seq<char>,
) -> Result<Seq<RecordView>, DecodeErrorView> {
    match json {
        JsonView::Array(items) => record_list_upto(items, path, items.len() as int),
        _ => Err(DecodeErrorView::WrongType { path }),
    }
}

/// An error among the first items of a list is the error of every longer
/// front part of it.
pub proof fn lemma_record_list_error_stays(
    items: Seq<JsonView>,
    path: Seq<char>,
    count: int,
    longer: int,
)
    requires
        count <= longer,
        record_list_upto(items, path, count) is Err,
    ensures
        record_list_upto(items, path, longer) == record_list_upto(items, path, count),
    decreases longer - count,
{
    if count < longer {
        lemma_record_list_error_stays(items, path, count, longer - 1);
    }
}

/// A list of leaderboard entries.
pub fn record_list(json: &Json, path: &str) -> (r: Result<Vec<Record>, DecodeError>)
    ensures
        outcome(r) == record_list_of(json@, path@),
{
    match json {
        Json::Array(items) => {
            let mut found: Vec<Record> = Vec::new();
            let mut i: usize = 0;
            let ghost trees = items_view(items@);
            proof {
                lemma_array_view(*items);
            }
            assert(found.deep_view() =~= Seq::<RecordView>::empty());
            while i < items.len()
                invariant
                    i <= items.len(),
                    json@ == JsonView::Array(trees),
                    trees == items_view(items@),
                    record_list_upto(trees, path@, i as int) == Ok::<
                        Seq<RecordView>,
                        DecodeErrorView,
                    >(found.deep_view()),
                decreases items.len() - i,
            {
                let inner = index_path_string(path, i);
                match record(&items[i], inner.as_str()) {
                    Ok(ok) => {
                        let ghost before = found.deep_view();
                        found.push(ok);
                        assert(found.deep_view() =~= before.push(ok.deep_view()));
                    },
                    Err(error) => {
                        proof {
                            lemma_record_list_error_stays(
                                trees,
                                path@,
                                i as int + 1,
                                items@.len() as int,
                            );
                        }
                        return Err(error);
                    },
                }
                i = i + 1;
            }
            Ok(found)
        },
        _ => Err(DecodeError::WrongType { path: String::from_str(path) }),
    }
}

/// How much of each category a level holds.
#[verifier::opaque]
pub open spec fn level_contents_of(
    json: JsonView,
    path: Seq<char>,
) -> Result<LevelContents, DecodeErrorView> {
    match json {
        JsonView::Object(fields) => {
            let world = required_stat_of(fields, "World"@, path);
            let movement = required_stat_of(fields, "Movement"@, path);
            let puzzles = required_stat_of(fields, "Puzzles"@, path);
            let enemies = required_stat_of(fields, "Enemies"@, path);
            let hazards = required_stat_of(fields, "Hazards"@, path);
            if world is Err {
                Err(world->Err_0)
            } else if movement is Err {
                Err(movement->Err_0)
            } else if puzzles is Err {
                Err(puzzles->Err_0)
            } else if enemies is Err {
                Err(enemies->Err_0)
            } else if hazards is Err {
                Err(hazards->Err_0)
            } else {
                Ok(
                    LevelContents {
                        world: world->Ok_0,
                        movement: movement->Ok_0,
                        puzzles: puzzles->Ok_0,
                        enemies: enemies->Ok_0,
                        hazards: hazards->Ok_0,
                    },
                )
            }
        },
        _ => Err(DecodeErrorView::WrongType { path }),
    }
}

/// How much of each category a level holds.
pub fn level_contents(json: &Json, path: &str) -> (r: Result<LevelContents, DecodeError>)
    ensures
        outcome(r) == level_contents_of(json@, path@),
{
    proof {
        reveal(level_contents_of);
    }
    match json {
        Json::Object(fields) => {
            proof {
                lemma_object_view(*fields);
            }
            let world = required_stat(fields, "World", path)?;
            let movement = required_stat(fields, "Movement", path)?;
            let puzzles = required_stat(fields, "Puzzles", path)?;
            let enemies = required_stat(fields, "Enemies", path)?;
            let hazards = required_stat(fields, "Hazards", path)?;
            Ok(LevelContents { world, movement, puzzles, enemies, hazards })
        },
        _ => Err(DecodeError::WrongType { path: String::from_str(path) }),
    }
}

/// Nothing decodes as a level's contents without the fields that have to
/// be there.
pub proof fn level_contents_needs_its_fields(fields: Seq<(Seq<char>, JsonView)>, path: Seq<char>)
    requires
        level_contents_of(JsonView::Object(fields), path) is Ok,
    ensures
        lookup(fields, "World"@) is Some,
        lookup(fields, "Movement"@) is Some,
        lookup(fields, "Puzzles"@) is Some,
        lookup(fields, "Enemies"@) is Some,
        lookup(fields, "Hazards"@) is Some,
{
    reveal(level_contents_of);
}

/// The statistics of a level. The API leaves most counters out where they
/// are zero: those decode to zero where they are absent.
#[verifier::opaque]
pub open spec fn level_stats_of(
    json: JsonView,
    path: Seq<char>,
) -> Result<LevelStatsView, DecodeErrorView> {
    match json {
        JsonView::Object(fields) => {
            let attempts = defaulted_stat_of(fields, "Attempts"@, path);
            let favorites = defaulted_stat_of(fields, "Favorites"@, path);
            let likes = defaulted_stat_of(fields, "Likes"@, path);
            let perk_points = optional_stat_of(fields, "PerkPoints"@, path);
            let play_time = defaulted_stat_of(fields, "PlayTime"@, path);
            let players = defaulted_stat_of(fields, "Players"@, path);
            let replay_value = defaulted_stat_of(fields, "ReplayValue"@, path);
            let clear_rate = required_real_of(fields, "ClearRate"@, path);
            let diamonds = required_small_of(fields, "Diamonds"@, path);
            let successes = defaulted_stat_of(fields, "Successes"@, path);
            let time_per_win = required_real_of(fields, "TimePerWin"@, path);
            let exposure_bucks = defaulted_stat_of(fields, "ExposureBucks"@, path);
            let failure_rate = required_real_of(fields, "FailureRate"@, path);
            let hidden_gem = required_stat_of(fields, "HiddenGem"@, path);
            if attempts is Err {
                Err(attempts->Err_0)
            } else if favorites is Err {
                Err(favorites->Err_0)
            } else if likes is Err {
                Err(likes->Err_0)
            } else if perk_points is Err {
                Err(perk_points->Err_0)
            } else if play_time is Err {
                Err(play_time->Err_0)
            } else if players is Err {
                Err(players->Err_0)
            } else if replay_value is Err {
                Err(replay_value->Err_0)
            } else if clear_rate is Err {
                Err(clear_rate->Err_0)
            } else if diamonds is Err {
                Err(diamonds->Err_0)
            } else if successes is Err {
                Err(successes->Err_0)
            } else if time_per_win is Err {
                Err(time_per_win->Err_0)
            } else if exposure_bucks is Err {
                Err(exposure_bucks->Err_0)
            } else if failure_rate is Err {
                Err(failure_rate->Err_0)
            } else if hidden_gem is Err {
                Err(hidden_gem->Err_0)
            } else {
                Ok(
                    LevelStatsView {
                        attempts: attempts->Ok_0,
                        favorites: favorites->Ok_0,
                        likes: likes->Ok_0,
                        perk_points: perk_points->Ok_0,
                        play_time: play_time->Ok_0,
                        players: players->Ok_0,
                        replay_value: replay_value->Ok_0,
                        clear_rate: clear_rate->Ok_0,
                        diamonds: diamonds->Ok_0,
                        successes: successes->Ok_0,
                        time_per_win: time_per_win->Ok_0,
                        exposure_bucks: exposure_bucks->Ok_0,
                        failure_rate: failure_rate->Ok_0,
                        hidden_gem: hidden_gem->Ok_0,
                    },
                )
            }
        },
        _ => Err(DecodeErrorView::WrongType { path }),
    }
}

/// The statistics of a level. The API leaves most counters out where they
/// are zero: those decode to zero where they are absent.
pub fn level_stats(json: &Json, path: &str) -> (r: Result<LevelStats, DecodeError>)
    ensures
        outcome(r) == level_stats_of(json@, path@),
{
    proof {
        reveal(level_stats_of);
    }
    match json {
        Json::Object(fields) => {
            proof {
                lemma_object_view(*fields);
            }
            let attempts = defaulted_stat(fields, "Attempts", path)?;
            let favorites = defaulted_stat(fields, "Favorites", path)?;
            let likes = defaulted_stat(fields, "Likes", path)?;
            let perk_points = optional_stat(fields, "PerkPoints", path)?;
            let play_time = defaulted_stat(fields, "PlayTime", path)?;
            let players = defaulted_stat(fields, "Players", path)?;
            let replay_value = defaulted_stat(fields, "ReplayValue", path)?;
            let clear_rate = required_real(fields, "ClearRate", path)?;
            let diamonds = required_small(fields, "Diamonds", path)?;
            let successes = defaulted_stat(fields, "Successes", path)?;
            let time_per_win = required_real(fields, "TimePerWin", path)?;
            let exposure_bucks = defaulted_stat(fields, "ExposureBucks", path)?;
            let failure_rate = required_real(fields, "FailureRate", path)?;
            let hidden_gem = required_stat(fields, "HiddenGem", path)?;
            Ok(
                LevelStats {
                    attempts,
                    favorites,
                    likes,
                    perk_points,
                    play_time,
                    players,
                    replay_value,
                    clear_rate,
                    diamonds,
                    successes,
                    time_per_win,
                    exposure_bucks,
                    failure_rate,
                    hidden_gem,
                },
            )
        },
        _ => Err(DecodeError::WrongType { path: String::from_str(path) }),
    }
}

/// Nothing decodes as a level's statistics without the fields that have to
/// be there.
pub proof fn level_stats_needs_its_fields(fields: Seq<(Seq<char>, JsonView)>, path: Seq<char>)
    requires
        level_stats_of(JsonView::Object(fields), path) is Ok,
    ensures
        lookup(fields, "ClearRate"@) is Some,
        lookup(fields, "Diamonds"@) is Some,
        lookup(fields, "TimePerWin"@) is Some,
        lookup(fields, "FailureRate"@) is Some,
        lookup(fields, "HiddenGem"@) is Some,
{
    reveal(level_stats_of);
}

/// The leaderboards of a level.
#[verifier::opaque]
pub open spec fn level_records_of(
    json: JsonView,
    path: Seq<char>,
) -> Result<LevelRecordsView, DecodeErrorView> {
    match json {
        JsonView::Object(fields) => {
            let high_score = match lookup(fields, "HighScore"@) {
                None => Err(DecodeErrorView::MissingField { path: field_path(path, "HighScore"@) }),
                Some(value) => record_list_of(value, field_path(path, "HighScore"@)),
            };
            let fastest_time = match lookup(fields, "FastestTime"@) {
                None => Err(
                    DecodeErrorView::MissingField { path: field_path(path, "FastestTime"@) },
                ),
                Some(value) => record_list_of(value, field_path(path, "FastestTime"@)),
            };
            if high_score is Err {
                Err(high_score->Err_0)
            } else if fastest_time is Err {
                Err(fastest_time->Err_0)
            } else {
                Ok(
                    LevelRecordsView {
                        high_score: high_score->Ok_0,
                        fastest_time: fastest_time->Ok_0,
                    },
                )
            }
        },
        _ => Err(DecodeErrorView::WrongType { path }),
    }
}

/// The leaderboards of a level.
pub fn level_records(json: &Json, path: &str) -> (r: Result<LevelRecords, DecodeError>)
    ensures
        outcome(r) == level_records_of(json@, path@),
{
    proof {
        reveal(level_records_of);
    }
    match json {
        Json::Object(fields) => {
            proof {
                lemma_object_view(*fields);
            }
            let high_score = match member(fields, "HighScore") {
                None => {
                    return Err(missing_field("HighScore", path));
                },
                Some(value) => {
                    let inner = field_path_string(path, "HighScore");
                    record_list(value, inner.as_str())?
                },
            };
            let fastest_time = match member(fields, "FastestTime") {
                None => {
                    return Err(missing_field("FastestTime", path));
                },
                Some(value) => {
                    let inner = field_path_string(path, "FastestTime");
                    record_list(value, inner.as_str())?
                },
            };
            Ok(LevelRecords { high_score, fastest_time })
        },
        _ => Err(DecodeError::WrongType { path: String::from_str(path) }),
    }
}

/// Nothing decodes as a level's leaderboards without the fields that have to
/// be there.
pub proof fn level_records_needs_its_fields(fields: Seq<(Seq<char>, JsonView)>, path: Seq<char>)
    requires
        level_records_of(JsonView::Object(fields), path) is Ok,
    ensures
        lookup(fields, "HighScore"@) is Some,
        lookup(fields, "FastestTime"@) is Some,
{
    reveal(level_records_of);
}

/// What the owner of the delegation key did with a level. A flag that is
/// absent is false.
#[verifier::opaque]
pub open spec fn level_interactions_of(
    json: JsonView,
    path: Seq<char>,
) -> Result<LevelInteractions, DecodeErrorView> {
    match json {
        JsonView::Object(fields) => {
            let bookmarked = defaulted_flag_of(fields, "bookmarked"@, path);
            let liked = defaulted_flag_of(fields, "liked"@, path);
            let favorited = defaulted_flag_of(fields, "favorited"@, path);
            if bookmarked is Err {
                Err(bookmarked->Err_0)
            } else if liked is Err {
                Err(liked->Err_0)
            } else if favorited is Err {
                Err(favorited->Err_0)
            } else {
                Ok(
                    LevelInteractions {
                        bookmarked: bookmarked->Ok_0,
                        liked: liked->Ok_0,
                        favorited: favorited->Ok_0,
                    },
                )
            }
        },
        _ => Err(DecodeErrorView::WrongType { path }),
    }
}

/// What the owner of the delegation key did with a level. A flag that is
/// absent is false.
pub fn level_interactions(json: &Json, path: &str) -> (r: Result<LevelInteractions, DecodeError>)
    ensures
        outcome(r) == level_interactions_of(json@, path@),
{
    proof {
        reveal(level_interactions_of);
    }
    match json {
        Json::Object(fields) => {
            proof {
                lemma_object_view(*fields);
            }
            let bookmarked = defaulted_flag(fields, "bookmarked", path)?;
            let liked = defaulted_flag(fields, "liked", path)?;
            let favorited = defaulted_flag(fields, "favorited", path)?;
            Ok(LevelInteractions { bookmarked, liked, favorited })
        },
        _ => Err(DecodeError::WrongType { path: String::from_str(path) }),
    }
}

/// A level. The identifier is in the field `_id`.
#[verifier::opaque]
pub open spec fn level_of(json: JsonView, path: Seq<char>) -> Result<LevelView, DecodeErrorView> {
    match json {
        JsonView::Object(fields) => {
            let id = required_text_of(fields, "_id"@, path);
            let cv = required_stat_of(fields, "cv"@, path);
            let level_id = required_text_of(fields, "levelId"@, path);
            let user_id = required_text_of(fields, "userId"@, path);
            let alias = match filled(fields, "alias"@) {
                None => Ok(None),
                Some(value) => match alias_of(value, field_path(path, "alias"@)) {
                    Ok(found) => Ok(Some(found)),
                    Err(error) => Err(error),
                },
            };
            let avatar_id = required_text_of(fields, "avatarId"@, path);
            let title = required_text_of(fields, "title"@, path);
            let locale_id = required_stat_of(fields, "localeId"@, path);
            let locale = required_text_of(fields, "locale"@, path);
            let created_at = required_text_of(fields, "createdAt"@, path);
            let updated_at = required_text_of(fields, "updatedAt"@, path);
            let tower = optional_flag_of(fields, "tower"@, path);
            let daily_build = optional_flag_of(fields, "dailyBuild"@, path);
            let tower_trial = required_flag_of(fields, "towerTrial"@, path);
            let required_players = required_small_of(fields, "requiredPlayers"@, path);
            let creator_time = required_real_of(fields, "creatorTime"@, path);
            let game_version = optional_text_of(fields, "gameVersion"@, path);
            let tags = required_text_list_of(fields, "tags"@, path);
            let tag_names = required_text_list_of(fields, "tagNames"@, path);
            let content = match lookup(fields, "content"@) {
                None => Err(DecodeErrorView::MissingField { path: field_path(path, "content"@) }),
                Some(value) => level_contents_of(value, field_path(path, "content"@)),
            };
            let stats = match filled(fields, "stats"@) {
                None => Ok(None),
                Some(value) => match level_stats_of(value, field_path(path, "stats"@)) {
                    Ok(found) => Ok(Some(found)),
                    Err(error) => Err(error),
                },
            };
            let records = match filled(fields, "records"@) {
                None => Ok(None),
                Some(value) => match level_records_of(value, field_path(path, "records"@)) {
                    Ok(found) => Ok(Some(found)),
                    Err(error) => Err(error),
                },
            };
            let interactions = match filled(fields, "interactions"@) {
                None => Ok(None),
                Some(value) => match level_interactions_of(
                    value,
                    field_path(path, "interactions"@),
                ) {
                    Ok(found) => Ok(Some(found)),
                    Err(error) => Err(error),
                },
            };
            if id is Err {
                Err(id->Err_0)
            } else if cv is Err {
                Err(cv->Err_0)
            } else if level_id is Err {
                Err(level_id->Err_0)
            } else if user_id is Err {
                Err(user_id->Err_0)
            } else if alias is Err {
                Err(alias->Err_0)
            } else if avatar_id is Err {
                Err(avatar_id->Err_0)
            } else if title is Err {
                Err(title->Err_0)
            } else if locale_id is Err {
                Err(locale_id->Err_0)
            } else if locale is Err {
                Err(locale->Err_0)
            } else if created_at is Err {
                Err(created_at->Err_0)
            } else if updated_at is Err {
                Err(updated_at->Err_0)
            } else if tower is Err {
                Err(tower->Err_0)
            } else if daily_build is Err {
                Err(daily_build->Err_0)
            } else if tower_trial is Err {
                Err(tower_trial->Err_0)
            } else if required_players is Err {
                Err(required_players->Err_0)
            } else if creator_time is Err {
                Err(creator_time->Err_0)
            } else if game_version is Err {
                Err(game_version->Err_0)
            } else if tags is Err {
                Err(tags->Err_0)
            } else if tag_names is Err {
                Err(tag_names->Err_0)
            } else if content is Err {
                Err(content->Err_0)
            } else if stats is Err {
                Err(stats->Err_0)
            } else if records is Err {
                Err(records->Err_0)
            } else if interactions is Err {
                Err(interactions->Err_0)
            } else {
                Ok(
                    LevelView {
                        id: id->Ok_0,
                        cv: cv->Ok_0,
                        level_id: level_id->Ok_0,
                        user_id: user_id->Ok_0,
                        alias: alias->Ok_0,
                        avatar_id: avatar_id->Ok_0,
                        title: title->Ok_0,
                        locale_id: locale_id->Ok_0,
                        locale: locale->Ok_0,
                        created_at: created_at->Ok_0,
                        updated_at: updated_at->Ok_0,
                        tower: tower->Ok_0,
                        daily_build: daily_build->Ok_0,
                        tower_trial: tower_trial->Ok_0,
                        required_players: required_players->Ok_0,
                        creator_time: creator_time->Ok_0,
                        game_version: game_version->Ok_0,
                        tags: tags->Ok_0,
                        tag_names: tag_names->Ok_0,
                        content: content->Ok_0,
                        stats: stats->Ok_0,
                        records: records->Ok_0,
                        interactions: interactions->Ok_0,
                    },
                )
            }
        },
        _ => Err(DecodeErrorView::WrongType { path }),
    }
}

/// A level. The identifier is in the field `_id`.
pub fn level(json: &Json, path: &str) -> (r: Result<Level, DecodeError>)
    ensures
        outcome(r) == level_of(json@, path@),
{
    proof {
        reveal(level_of);
    }
    match json {
        Json::Object(fields) => {
            proof {
                lemma_object_view(*fields);
            }
            let id = required_text(fields, "_id", path)?;
            let cv = required_stat(fields, "cv", path)?;
            let level_id = required_text(fields, "levelId", path)?;
            let user_id = required_text(fields, "userId", path)?;
            let alias = match member_filled(fields, "alias") {
                None => None,
                Some(value) => {
                    let inner = field_path_string(path, "alias");
                    Some(alias(value, inner.as_str())?)
                },
            };
            let avatar_id = required_text(fields, "avatarId", path)?;
            let title = required_text(fields, "title", path)?;
            let locale_id = required_stat(fields, "localeId", path)?;
            let locale = required_text(fields, "locale", path)?;
            let created_at = required_text(fields, "createdAt", path)?;
            let updated_at = required_text(fields, "updatedAt", path)?;
            let tower = optional_flag(fields, "tower", path)?;
            let daily_build = optional_flag(fields, "dailyBuild", path)?;
            let tower_trial = required_flag(fields, "towerTrial", path)?;
            let required_players = required_small(fields, "requiredPlayers", path)?;
            let creator_time = required_real(fields, "creatorTime", path)?;
            let game_version = optional_text(fields, "gameVersion", path)?;
            let tags = required_text_list(fields, "tags", path)?;
            let tag_names = required_text_list(fields, "tagNames", path)?;
            let content = match member(fields, "content") {
                None => {
                    return Err(missing_field("content", path));
                },
                Some(value) => {
                    let inner = field_path_string(path, "content");
                    level_contents(value, inner.as_str())?
                },
            };
            let stats = match member_filled(fields, "stats") {
                None => None,
                Some(value) => {
                    let inner = field_path_string(path, "stats");
                    Some(level_stats(value, inner.as_str())?)
                },
            };
            let records = match member_filled(fields, "records") {
                None => None,
                Some(value) => {
                    let inner = field_path_string(path, "records");
                    Some(level_records(value, inner.as_str())?)
                },
            };
            let interactions = match member_filled(fields, "interactions") {
                None => None,
                Some(value) => {
                    let inner = field_path_string(path, "interactions");
                    Some(level_interactions(value, inner.as_str())?)
                },
            };
            Ok(
                Level {
                    id,
                    cv,
                    level_id,
                    user_id,
                    alias,
                    avatar_id,
                    title,
                    locale_id,
                    locale,
                    created_at,
                    updated_at,
                    tower,
                    daily_build,
                    tower_trial,
                    required_players,
                    creator_time,
                    game_version,
                    tags,
                    tag_names,
                    content,
                    stats,
                    records,
                    interactions,
                },
            )
        },
        _ => Err(DecodeError::WrongType { path: String::from_str(path) }),
    }
}

/// Nothing decodes as a level without the fields that have to
/// be there.
pub proof fn level_needs_its_fields(fields: Seq<(Seq<char>, JsonView)>, path: Seq<char>)
    requires
        level_of(JsonView::Object(fields), path) is Ok,
    ensures
        lookup(fields, "_id"@) is Some,
        lookup(fields, "cv"@) is Some,
        lookup(fields, "levelId"@) is Some,
        lookup(fields, "userId"@) is Some,
        lookup(fields, "avatarId"@) is Some,
        lookup(fields, "title"@) is Some,
        lookup(fields, "localeId"@) is Some,
        lookup(fields, "locale"@) is Some,
        lookup(fields, "createdAt"@) is Some,
        lookup(fields, "updatedAt"@) is Some,
        lookup(fields, "towerTrial"@) is Some,
        lookup(fields, "requiredPlayers"@) is Some,
        lookup(fields, "creatorTime"@) is Some,
        lookup(fields, "tags"@) is Some,
        lookup(fields, "tagNames"@) is Some,
        lookup(fields, "content"@) is Some,
{
    reveal(level_of);
}

/// The first `count` items of a list of levels, or the error of the first
/// item among them that has one.
pub open spec fn level_list_upto(
    items: Seq<JsonView>,
    path: Seq<char>,
    count: int,
) -> Result<Seq<LevelView>, DecodeErrorView>
    decreases count,
{
    if count <= 0 {
        Ok(Seq::empty())
    } else {
        match level_list_upto(items, path, count - 1) {
            Err(error) => Err(error),
            Ok(front) => match level_of(items[count - 1], index_path(path, count - 1)) {
                Err(error) => Err(error),
                Ok(found) => Ok(front.push(found)),
            },
        }
    }
}

/// A list of levels: every item in order, or the error of the first item
/// that has one. Anything but a list is of the wrong type.
pub open spec fn level_list_of(
    json: JsonView,
    path: Seq<char>,
) -> Result<Seq<LevelView>, DecodeErrorView> {
    match json {
        JsonView::Array(items) => level_list_upto(items, path, items.len() as int),
        _ => Err(DecodeErrorView::WrongType { path }),
    }
}

/// An error among the first items of a list is the error of every longer
/// front part of it.
pub proof fn lemma_level_list_error_stays(
    items: Seq<JsonView>,
    path: Seq<char>,
    count: int,
    longer: int,
)
    requires
        count <= longer,
        level_list_upto(items, path, count) is Err,
    ensures
        level_list_upto(items, path, longer) == level_list_upto(items, path, count),
    decreases longer - count,
{
    if count < longer {
        lemma_level_list_error_stays(items, path, count, longer - 1);
    }
}

/// A list of levels.
pub fn level_list(json: &Json, path: &str) -> (r: Result<Vec<Level>, DecodeError>)
    ensures
        outcome(r) == level_list_of(json@, path@),
{
    match json {
        Json::Array(items) => {
            let mut found: Vec<Level> = Vec::new();
            let mut i: usize = 0;
            let ghost trees = items_view(items@);
            proof {
                lemma_array_view(*items);
            }
            assert(found.deep_view() =~= Seq::<LevelView>::empty());
            while i < items.len()
                invariant
                    i <= items.len(),
                    json@ == JsonView::Array(trees),
                    trees == items_view(items@),
                    level_list_upto(trees, path@, i as int) == Ok::<
                        Seq<LevelView>,
                        DecodeErrorView,
                    >(found.deep_view()),
                decreases items.len() - i,
            {
                let inner = index_path_string(path, i);
                match level(&items[i], inner.as_str()) {
                    Ok(ok) => {
                        let ghost before = found.deep_view();
                        found.push(ok);
                        assert(found.deep_view() =~= before.push(ok.deep_view()));
                    },
                    Err(error) => {
                        proof {
                            lemma_level_list_error_stays(
                                trees,
                                path@,
                                i as int + 1,
                                items@.len() as int,
                            );
                        }
                        return Err(error);
                    },
                }
                i = i + 1;
            }
            Ok(found)
        },
        _ => Err(DecodeError::WrongType { path: String::from_str(path) }),
    }
}

/// The answer of the API that holds a list of levels: the document is an object, `data`
/// may be absent or `null`, and so may `message` and `location`.
pub open spec fn levels_response_of(
    json: JsonView,
) -> Result<RumpusView<Seq<LevelView>>, DecodeErrorView> {
    match json {
        JsonView::Object(fields) => {
            let data = match filled(fields, "data"@) {
                None => Ok(None),
                Some(value) => match level_list_of(value, "data"@) {
                    Ok(found) => Ok(Some(found)),
                    Err(error) => Err(error),
                },
            };
            let message = optional_text_of(fields, "message"@, Seq::empty());
            let location = optional_text_of(fields, "location"@, Seq::empty());
            if data is Err {
                Err(data->Err_0)
            } else if message is Err {
                Err(message->Err_0)
            } else if location is Err {
                Err(location->Err_0)
            } else {
                Ok(
                    RumpusView {
                        data: data->Ok_0, message: message->Ok_0, location: location->Ok_0,
                    },
                )
            }
        },
        _ => Err(DecodeErrorView::WrongType { path: Seq::empty() }),
    }
}

/// Decodes the answer of the API that holds a list of levels from a document that has
/// been read.
pub fn levels_response(json: &Json) -> (r: Result<Rumpus<Vec<Level>>, DecodeError>)
    ensures
        outcome(r) == levels_response_of(json@),
{
    proof {
        reveal_strlit("");
        assert(""@ =~= Seq::<char>::empty());
    }
    match json {
        Json::Object(fields) => {
            proof {
                lemma_object_view(*fields);
            }
            let data = match member_filled(fields, "data") {
                None => None,
                Some(value) => {
                    proof {
                        assert(field_path(Seq::empty(), "data"@) == "data"@);
                    }
                    Some(level_list(value, "data")?)
                },
            };
            let message = optional_text(fields, "message", "")?;
            let location = optional_text(fields, "location", "")?;
            Ok(Rumpus { data, message, location })
        },
        _ => Err(DecodeError::WrongType { path: String::new() }),
    }
}

/// What decoding a text as the answer that holds a list of levels gives: the place
/// where the text stops being JSON, or what the document decodes to.
pub open spec fn levels_of_text(
    text: Seq<char>,
) -> Result<RumpusView<Seq<LevelView>>, DecodeErrorView> {
    match document(text) {
        Ok(json) => levels_response_of(json),
        Err(at) => Err(DecodeErrorView::Syntax { line: at.line, column: at.column }),
    }
}

/// Decodes the answer of the API that holds a list of levels.
pub fn decode_levels(text: &str) -> (r: Result<Rumpus<Vec<Level>>, DecodeError>)
    ensures
        outcome(r) == levels_of_text(text@),
{
    match Json::parse(text) {
        Ok(json) => levels_response(&json),
        Err(at) => Err(DecodeError::Syntax { line: at.line, column: at.column }),
    }
}

/// An answer without `data` is no error: it decodes, with no data, whenever
/// its message and its location are text or absent.
pub proof fn levels_answer_without_data_decodes(fields: Seq<(Seq<char>, JsonView)>)
    requires
        lookup(fields, "data"@) is None,
        optional_text_of(fields, "message"@, Seq::empty()) is Ok,
        optional_text_of(fields, "location"@, Seq::empty()) is Ok,
    ensures
        levels_response_of(JsonView::Object(fields)) == Ok::<
            RumpusView<Seq<LevelView>>,
            DecodeErrorView,
        >(
            RumpusView {
                data: None,
                message: optional_text_of(fields, "message"@, Seq::empty())->Ok_0,
                location: optional_text_of(fields, "location"@, Seq::empty())->Ok_0,
            },
        ),
{
}

/// The flags of a level's interactions that are absent are false.
pub proof fn absent_level_interactions_are_false(
    fields: Seq<(Seq<char>, JsonView)>,
    path: Seq<char>,
)
    requires
        level_interactions_of(JsonView::Object(fields), path) is Ok,
    ensures
        ({
            let found = level_interactions_of(JsonView::Object(fields), path)->Ok_0;
            &&& lookup(fields, "bookmarked"@) is None ==> !found.bookmarked
            &&& lookup(fields, "liked"@) is None ==> !found.liked
            &&& lookup(fields, "favorited"@) is None ==> !found.favorited
        }),
{
    reveal(level_interactions_of);
}

/// Every counter of a level that the API leaves out where it is zero decodes
/// to zero where it is absent.
pub proof fn absent_level_counters_are_zero(fields: Seq<(Seq<char>, JsonView)>, path: Seq<char>)
    requires
        level_stats_of(JsonView::Object(fields), path) is Ok,
    ensures
        ({
            let stats = level_stats_of(JsonView::Object(fields), path)->Ok_0;
            &&& lookup(fields, "Attempts"@) is None ==> stats.attempts == 0
            &&& lookup(fields, "Favorites"@) is None ==> stats.favorites == 0
            &&& lookup(fields, "Likes"@) is None ==> stats.likes == 0
            &&& lookup(fields, "PlayTime"@) is None ==> stats.play_time == 0
            &&& lookup(fields, "Players"@) is None ==> stats.players == 0
            &&& lookup(fields, "ReplayValue"@) is None ==> stats.replay_value == 0
            &&& lookup(fields, "Successes"@) is None ==> stats.successes == 0
            &&& lookup(fields, "ExposureBucks"@) is None ==> stats.exposure_bucks == 0
            &&& lookup(fields, "PerkPoints"@) is None ==> stats.perk_points is None
        }),
{
    reveal(level_stats_of);
}

} // verus!
