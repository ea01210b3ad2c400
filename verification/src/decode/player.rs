//! Decoders for players and for what belongs to them.

use crate::decode::error::{
    field_path, field_path_string, index_path, index_path_string, outcome, DecodeError,
    DecodeErrorView,
};
use crate::decode::field::{
    defaulted_percent, defaulted_percent_of, defaulted_stat, defaulted_stat_of, filled,
    lemma_counter_round_trip, lookup, member, member_filled, missing_field, optional_flag,
    optional_flag_of, optional_stat, optional_stat_of, optional_text, optional_text_of,
    required_flag, required_flag_of, required_stat, required_stat_of, required_text,
    required_text_list, required_text_list_of, required_text_of, wrong_type,
};
use crate::json::{
    document, items_view, lemma_array_view, lemma_object_view, members_view, Json, JsonView,
};
use crate::text::decimal;
use crate::types::{
    Alias, AliasType, AliasView, DelegationKeyInfo, DelegationKeyInfoView, Player,
    PlayerInteractions, PlayerStats, PlayerView, Rumpus, RumpusView,
};
use vstd::prelude::*;
use vstd::string::StringExecFns;

verus! {

/// The kind of alias that a value names: `levelhead` or `levelhead-safe`.
pub open spec fn as_alias_type(json: JsonView) -> Option<AliasType> {
    match json {
        JsonView::Text(text) => if text == "levelhead"@ {
            Some(AliasType::Levelhead)
        } else if text == "levelhead-safe"@ {
            Some(AliasType::LevelheadSafe)
        } else {
            None
        },
        _ => None,
    }
}

/// The kind of an alias, which is absent for an anonymous one: `None` where
/// the field is absent or holds `null`, an error where it holds anything
/// else that names no kind.
pub open spec fn optional_alias_type_of(
    fields: Seq<(Seq<char>, JsonView)>,
    name: Seq<char>,
    parent: Seq<char>,
) -> Result<Option<AliasType>, DecodeErrorView> {
    match filled(fields, name) {
        None => Ok(None),
        Some(json) => match as_alias_type(json) {
            Some(kind) => Ok(Some(kind)),
            None => Err(DecodeErrorView::WrongType { path: field_path(parent, name) }),
        },
    }
}

/// The kind of alias that a value names.
pub fn read_alias_type(json: &Json) -> (r: Option<AliasType>)
    ensures
        r == as_alias_type(json@),
{
    match json {
        Json::Text(text) => {
            if *text == String::from_str("levelhead") {
                Some(AliasType::Levelhead)
            } else if *text == String::from_str("levelhead-safe") {
                Some(AliasType::LevelheadSafe)
            } else {
                None
            }
        },
        _ => None,
    }
}

/// The kind of an alias, which is absent for an anonymous one.
pub fn optional_alias_type(
    fields: &Vec<(String, Json)>,
    name: &str,
    parent: &str,
) -> (r: Result<Option<AliasType>, DecodeError>)
    ensures
        outcome(r) == optional_alias_type_of(members_view(fields@), name@, parent@),
{
    match member_filled(fields, name) {
        None => Ok(None),
        Some(json) => match read_alias_type(json) {
            Some(kind) => Ok(Some(kind)),
            None => Err(wrong_type(name, parent)),
        },
    }
}

/// A player's name. The kind of the alias is in the field `context`; an
/// anonymous alias has neither a kind nor a name.
#[verifier::opaque]
pub open spec fn alias_of(json: JsonView, path: Seq<char>) -> Result<AliasView, DecodeErrorView> {
    match json {
        JsonView::Object(fields) => {
            let user_id = required_text_of(fields, "userId"@, path);
            let alias_type = optional_alias_type_of(fields, "context"@, path);
            let alias = optional_text_of(fields, "alias"@, path);
            let anonymous = optional_flag_of(fields, "anonymous"@, path);
            if user_id is Err {
                Err(user_id->Err_0)
            } else if alias_type is Err {
                Err(alias_type->Err_0)
            } else if alias is Err {
                Err(alias->Err_0)
            } else if anonymous is Err {
                Err(anonymous->Err_0)
            } else {
                Ok(
                    AliasView {
                        user_id: user_id->Ok_0,
                        alias_type: alias_type->Ok_0,
                        alias: alias->Ok_0,
                        anonymous: anonymous->Ok_0,
                    },
                )
            }
        },
        _ => Err(DecodeErrorView::WrongType { path }),
    }
}

/// A player's name. The kind of the alias is in the field `context`; an
/// anonymous alias has neither a kind nor a name.
pub fn alias(json: &Json, path: &str) -> (r: Result<Alias, DecodeError>)
    ensures
        outcome(r) == alias_of(json@, path@),
{
    proof {
        reveal(alias_of);
    }
    match json {
        Json::Object(fields) => {
            proof {
                lemma_object_view(*fields);
            }
            let user_id = required_text(fields, "userId", path)?;
            let alias_type = optional_alias_type(fields, "context", path)?;
            let alias = optional_text(fields, "alias", path)?;
            let anonymous = optional_flag(fields, "anonymous", path)?;
            Ok(Alias { user_id, alias_type, alias, anonymous })
        },
        _ => Err(DecodeError::WrongType { path: String::from_str(path) }),
    }
}

/// Nothing decodes as an alias without the fields that have to
/// be there.
pub proof fn alias_needs_its_fields(fields: Seq<(Seq<char>, JsonView)>, path: Seq<char>)
    requires
        alias_of(JsonView::Object(fields), path) is Ok,
    ensures
        lookup(fields, "userId"@) is Some,
{
    reveal(alias_of);
}

/// The statistics of a player. The API leaves most counters out where they
/// are zero: those decode to zero where they are absent. Counters may be
/// negative.
#[verifier::opaque]
pub open spec fn player_stats_of(
    json: JsonView,
    path: Seq<char>,
) -> Result<PlayerStats, DecodeErrorView> {
    match json {
        JsonView::Object(fields) => {
            let subscribers = required_stat_of(fields, "Subscribers"@, path);
            let published = defaulted_stat_of(fields, "Published"@, path);
            let plays = defaulted_stat_of(fields, "Plays"@, path);
            let play_time = required_stat_of(fields, "PlayTime"@, path);
            let crowns = required_stat_of(fields, "Crowns"@, path);
            let shoes = required_stat_of(fields, "Shoes"@, path);
            let levels_played = defaulted_stat_of(fields, "LevelsPlayed"@, path);
            let wins = defaulted_stat_of(fields, "Wins"@, path);
            let fails = defaulted_stat_of(fields, "Fails"@, path);
            let num_following = required_stat_of(fields, "NumFollowing"@, path);
            let d_b_comp = optional_stat_of(fields, "DBComp"@, path);
            let tower_trials = defaulted_stat_of(fields, "ChalWins"@, path);
            let time_trophies = defaulted_stat_of(fields, "TimeTrophies"@, path);
            let fave_gen = defaulted_stat_of(fields, "FaveGen"@, path);
            let like_gen = defaulted_stat_of(fields, "LikeGen"@, path);
            let bucks_tipped = defaulted_stat_of(fields, "BucksTipped"@, path);
            let tips_gotten = defaulted_stat_of(fields, "TipsGotten"@, path);
            let ach_points = optional_stat_of(fields, "AchPoints"@, path);
            let campaign_progress = defaulted_percent_of(fields, "CampaignProg"@, path);
            if subscribers is Err {
                Err(subscribers->Err_0)
            } else if published is Err {
                Err(published->Err_0)
            } else if plays is Err {
                Err(plays->Err_0)
            } else if play_time is Err {
                Err(play_time->Err_0)
            } else if crowns is Err {
                Err(crowns->Err_0)
            } else if shoes is Err {
                Err(shoes->Err_0)
            } else if levels_played is Err {
                Err(levels_played->Err_0)
            } else if wins is Err {
                Err(wins->Err_0)
            } else if fails is Err {
                Err(fails->Err_0)
            } else if num_following is Err {
                Err(num_following->Err_0)
            } else if d_b_comp is Err {
                Err(d_b_comp->Err_0)
            } else if tower_trials is Err {
                Err(tower_trials->Err_0)
            } else if time_trophies is Err {
                Err(time_trophies->Err_0)
            } else if fave_gen is Err {
                Err(fave_gen->Err_0)
            } else if like_gen is Err {
                Err(like_gen->Err_0)
            } else if bucks_tipped is Err {
                Err(bucks_tipped->Err_0)
            } else if tips_gotten is Err {
                Err(tips_gotten->Err_0)
            } else if ach_points is Err {
                Err(ach_points->Err_0)
            } else if campaign_progress is Err {
                Err(campaign_progress->Err_0)
            } else {
                Ok(
                    PlayerStats {
                        subscribers: subscribers->Ok_0,
                        published: published->Ok_0,
                        plays: plays->Ok_0,
                        play_time: play_time->Ok_0,
                        crowns: crowns->Ok_0,
                        shoes: shoes->Ok_0,
                        levels_played: levels_played->Ok_0,
                        wins: wins->Ok_0,
                        fails: fails->Ok_0,
                        num_following: num_following->Ok_0,
                        d_b_comp: d_b_comp->Ok_0,
                        tower_trials: tower_trials->Ok_0,
                        time_trophies: time_trophies->Ok_0,
                        fave_gen: fave_gen->Ok_0,
                        like_gen: like_gen->Ok_0,
                        bucks_tipped: bucks_tipped->Ok_0,
                        tips_gotten: tips_gotten->Ok_0,
                        ach_points: ach_points->Ok_0,
                        campaign_progress: campaign_progress->Ok_0,
                    },
                )
            }
        },
        _ => Err(DecodeErrorView::WrongType { path }),
    }
}

/// The statistics of a player. The API leaves most counters out where they
/// are zero: those decode to zero where they are absent. Counters may be
/// negative.
pub fn player_stats(json: &Json, path: &str) -> (r: Result<PlayerStats, DecodeError>)
    ensures
        outcome(r) == player_stats_of(json@, path@),
{
    proof {
        reveal(player_stats_of);
    }
    match json {
        Json::Object(fields) => {
            proof {
                lemma_object_view(*fields);
            }
            let subscribers = required_stat(fields, "Subscribers", path)?;
            let published = defaulted_stat(fields, "Published", path)?;
            let plays = defaulted_stat(fields, "Plays", path)?;
            let play_time = required_stat(fields, "PlayTime", path)?;
            let crowns = required_stat(fields, "Crowns", path)?;
            let shoes = required_stat(fields, "Shoes", path)?;
            let levels_played = defaulted_stat(fields, "LevelsPlayed", path)?;
            let wins = defaulted_stat(fields, "Wins", path)?;
            let fails = defaulted_stat(fields, "Fails", path)?;
            let num_following = required_stat(fields, "NumFollowing", path)?;
            let d_b_comp = optional_stat(fields, "DBComp", path)?;
            let tower_trials = defaulted_stat(fields, "ChalWins", path)?;
            let time_trophies = defaulted_stat(fields, "TimeTrophies", path)?;
            let fave_gen = defaulted_stat(fields, "FaveGen", path)?;
            let like_gen = defaulted_stat(fields, "LikeGen", path)?;
            let bucks_tipped = defaulted_stat(fields, "BucksTipped", path)?;
            let tips_gotten = defaulted_stat(fields, "TipsGotten", path)?;
            let ach_points = optional_stat(fields, "AchPoints", path)?;
            let campaign_progress = defaulted_percent(fields, "CampaignProg", path)?;
            Ok(
                PlayerStats {
                    subscribers,
                    published,
                    plays,
                    play_time,
                    crowns,
                    shoes,
                    levels_played,
                    wins,
                    fails,
                    num_following,
                    d_b_comp,
                    tower_trials,
                    time_trophies,
                    fave_gen,
                    like_gen,
                    bucks_tipped,
                    tips_gotten,
                    ach_points,
                    campaign_progress,
                },
            )
        },
        _ => Err(DecodeError::WrongType { path: String::from_str(path) }),
    }
}

/// Nothing decodes as a player's statistics without the fields that have to
/// be there.
pub proof fn player_stats_needs_its_fields(fields: Seq<(Seq<char>, JsonView)>, path: Seq<char>)
    requires
        player_stats_of(JsonView::Object(fields), path) is Ok,
    ensures
        lookup(fields, "Subscribers"@) is Some,
        lookup(fields, "PlayTime"@) is Some,
        lookup(fields, "Crowns"@) is Some,
        lookup(fields, "Shoes"@) is Some,
        lookup(fields, "NumFollowing"@) is Some,
{
    reveal(player_stats_of);
}

/// How the owner of the delegation key relates to a player.
#[verifier::opaque]
pub open spec fn player_interactions_of(
    json: JsonView,
    path: Seq<char>,
) -> Result<PlayerInteractions, DecodeErrorView> {
    match json {
        JsonView::Object(fields) => {
            let following = required_flag_of(fields, "following"@, path);
            if following is Err {
                Err(following->Err_0)
            } else {
                Ok(
                    PlayerInteractions {
                        following: following->Ok_0,
                    },
                )
            }
        },
        _ => Err(DecodeErrorView::WrongType { path }),
    }
}

/// How the owner of the delegation key relates to a player.
pub fn player_interactions(json: &Json, path: &str) -> (r: Result<PlayerInteractions, DecodeError>)
    ensures
        outcome(r) == player_interactions_of(json@, path@),
{
    proof {
        reveal(player_interactions_of);
    }
    match json {
        Json::Object(fields) => {
            proof {
                lemma_object_view(*fields);
            }
            let following = required_flag(fields, "following", path)?;
            Ok(PlayerInteractions { following })
        },
        _ => Err(DecodeError::WrongType { path: String::from_str(path) }),
    }
}

/// Nothing decodes as a player's interactions without the fields that have to
/// be there.
pub proof fn player_interactions_needs_its_fields(
    fields: Seq<(Seq<char>, JsonView)>,
    path: Seq<char>,
)
    requires
        player_interactions_of(JsonView::Object(fields), path) is Ok,
    ensures
        lookup(fields, "following"@) is Some,
{
    reveal(player_interactions_of);
}

/// A player profile. The identifier is in the field `_id`.
#[verifier::opaque]
pub open spec fn player_of(json: JsonView, path: Seq<char>) -> Result<PlayerView, DecodeErrorView> {
    match json {
        JsonView::Object(fields) => {
            let id = required_text_of(fields, "_id"@, path);
            let user_id = required_text_of(fields, "userId"@, path);
            let alias = match filled(fields, "alias"@) {
                None => Ok(None),
                Some(value) => match alias_of(value, field_path(path, "alias"@)) {
                    Ok(found) => Ok(Some(found)),
                    Err(error) => Err(error),
                },
            };
            let created_at = required_text_of(fields, "createdAt"@, path);
            let updated_at = required_text_of(fields, "updatedAt"@, path);
            let interactions = match filled(fields, "interactions"@) {
                None => Ok(None),
                Some(value) => match player_interactions_of(
                    value,
                    field_path(path, "interactions"@),
                ) {
                    Ok(found) => Ok(Some(found)),
                    Err(error) => Err(error),
                },
            };
            let stats = match lookup(fields, "stats"@) {
                None => Err(DecodeErrorView::MissingField { path: field_path(path, "stats"@) }),
                Some(value) => player_stats_of(value, field_path(path, "stats"@)),
            };
            if id is Err {
                Err(id->Err_0)
            } else if user_id is Err {
                Err(user_id->Err_0)
            } else if alias is Err {
                Err(alias->Err_0)
            } else if created_at is Err {
                Err(created_at->Err_0)
            } else if updated_at is Err {
                Err(updated_at->Err_0)
            } else if interactions is Err {
                Err(interactions->Err_0)
            } else if stats is Err {
                Err(stats->Err_0)
            } else {
                Ok(
                    PlayerView {
                        id: id->Ok_0,
                        user_id: user_id->Ok_0,
                        alias: alias->Ok_0,
                        created_at: created_at->Ok_0,
                        updated_at: updated_at->Ok_0,
                        interactions: interactions->Ok_0,
                        stats: stats->Ok_0,
                    },
                )
            }
        },
        _ => Err(DecodeErrorView::WrongType { path }),
    }
}

/// A player profile. The identifier is in the field `_id`.
pub fn player(json: &Json, path: &str) -> (r: Result<Player, DecodeError>)
    ensures
        outcome(r) == player_of(json@, path@),
{
    proof {
        reveal(player_of);
    }
    match json {
        Json::Object(fields) => {
            proof {
                lemma_object_view(*fields);
            }
            let id = required_text(fields, "_id", path)?;
            let user_id = required_text(fields, "userId", path)?;
            let alias = match member_filled(fields, "alias") {
                None => None,
                Some(value) => {
                    let inner = field_path_string(path, "alias");
                    Some(alias(value, inner.as_str())?)
                },
            };
            let created_at = required_text(fields, "createdAt", path)?;
            let updated_at = required_text(fields, "updatedAt", path)?;
            let interactions = match member_filled(fields, "interactions") {
                None => None,
                Some(value) => {
                    let inner = field_path_string(path, "interactions");
                    Some(player_interactions(value, inner.as_str())?)
                },
            };
            let stats = match member(fields, "stats") {
                None => {
                    return Err(missing_field("stats", path));
                },
                Some(value) => {
                    let inner = field_path_string(path, "stats");
                    player_stats(value, inner.as_str())?
                },
            };
            Ok(Player { id, user_id, alias, created_at, updated_at, interactions, stats })
        },
        _ => Err(DecodeError::WrongType { path: String::from_str(path) }),
    }
}

/// Nothing decodes as a player without the fields that have to
/// be there.
pub proof fn player_needs_its_fields(fields: Seq<(Seq<char>, JsonView)>, path: Seq<char>)
    requires
        player_of(JsonView::Object(fields), path) is Ok,
    ensures
        lookup(fields, "_id"@) is Some,
        lookup(fields, "userId"@) is Some,
        lookup(fields, "createdAt"@) is Some,
        lookup(fields, "updatedAt"@) is Some,
        lookup(fields, "stats"@) is Some,
{
    reveal(player_of);
}

/// What the API knows about a delegation key.
#[verifier::opaque]
pub open spec fn key_info_of(
    json: JsonView,
    path: Seq<char>,
) -> Result<DelegationKeyInfoView, DecodeErrorView> {
    match json {
        JsonView::Object(fields) => {
            let user_id = required_text_of(fields, "userId"@, path);
            let pass_id = required_text_of(fields, "passId"@, path);
            let permissions = required_text_list_of(fields, "permissions"@, path);
            if user_id is Err {
                Err(user_id->Err_0)
            } else if pass_id is Err {
                Err(pass_id->Err_0)
            } else if permissions is Err {
                Err(permissions->Err_0)
            } else {
                Ok(
                    DelegationKeyInfoView {
                        user_id: user_id->Ok_0,
                        pass_id: pass_id->Ok_0,
                        permissions: permissions->Ok_0,
                    },
                )
            }
        },
        _ => Err(DecodeErrorView::WrongType { path }),
    }
}

/// What the API knows about a delegation key.
pub fn key_info(json: &Json, path: &str) -> (r: Result<DelegationKeyInfo, DecodeError>)
    ensures
        outcome(r) == key_info_of(json@, path@),
{
    proof {
        reveal(key_info_of);
    }
    match json {
        Json::Object(fields) => {
            proof {
                lemma_object_view(*fields);
            }
            let user_id = required_text(fields, "userId", path)?;
            let pass_id = required_text(fields, "passId", path)?;
            let permissions = required_text_list(fields, "permissions", path)?;
            Ok(DelegationKeyInfo { user_id, pass_id, permissions })
        },
        _ => Err(DecodeError::WrongType { path: String::from_str(path) }),
    }
}

/// Nothing decodes as a delegation key's record without the fields that have to
/// be there.
pub proof fn key_info_needs_its_fields(fields: Seq<(Seq<char>, JsonView)>, path: Seq<char>)
    requires
        key_info_of(JsonView::Object(fields), path) is Ok,
    ensures
        lookup(fields, "userId"@) is Some,
        lookup(fields, "passId"@) is Some,
        lookup(fields, "permissions"@) is Some,
{
    reveal(key_info_of);
}

/// The first `count` items of a list of players, or the error of the first
/// item among them that has one.
pub open spec fn player_list_upto(
    items: Seq<JsonView>,
    path: Seq<char>,
    count: int,
) -> Result<Seq<PlayerView>, DecodeErrorView>
    decreases count,
{
    if count <= 0 {
        Ok(Seq::empty())
    } else {
        match player_list_upto(items, path, count - 1) {
            Err(error) => Err(error),
            Ok(front) => match player_of(items[count - 1], index_path(path, count - 1)) {
                Err(error) => Err(error),
                Ok(found) => Ok(front.push(found)),
            },
        }
    }
}

/// A list of players: every item in order, or the error of the first item
/// that has one. Anything but a list is of the wrong type.
pub open spec fn player_list_of(
    json: JsonView,
    path: Seq<char>,
) -> Result<Seq<PlayerView>, DecodeErrorView> {
    match json {
        JsonView::Array(items) => player_list_upto(items, path, items.len() as int),
        _ => Err(DecodeErrorView::WrongType { path }),
    }
}

/// An error among the first items of a list is the error of every longer
/// front part of it.
pub proof fn lemma_player_list_error_stays(
    items: Seq<JsonView>,
    path: Seq<char>,
    count: int,
    longer: int,
)
    requires
        count <= longer,
        player_list_upto(items, path, count) is Err,
    ensures
        player_list_upto(items, path, longer) == player_list_upto(items, path, count),
    decreases longer - count,
{
    if count < longer {
        lemma_player_list_error_stays(items, path, count, longer - 1);
    }
}

/// A list of players.
pub fn player_list(json: &Json, path: &str) -> (r: Result<Vec<Player>, DecodeError>)
    ensures
        outcome(r) == player_list_of(json@, path@),
{
    match json {
        Json::Array(items) => {
            let mut found: Vec<Player> = Vec::new();
            let mut i: usize = 0;
            let ghost trees = items_view(items@);
            proof {
                lemma_array_view(*items);
            }
            assert(found.deep_view() =~= Seq::<PlayerView>::empty());
            while i < items.len()
                invariant
                    i <= items.len(),
                    json@ == JsonView::Array(trees),
                    trees == items_view(items@),
                    player_list_upto(trees, path@, i as int) == Ok::<
                        Seq<PlayerView>,
                        DecodeErrorView,
                    >(found.deep_view()),
                decreases items.len() - i,
            {
                let inner = index_path_string(path, i);
                match player(&items[i], inner.as_str()) {
                    Ok(ok) => {
                        let ghost before = found.deep_view();
                        found.push(ok);
                        assert(found.deep_view() =~= before.push(ok.deep_view()));
                    },
                    Err(error) => {
                        proof {
                            lemma_player_list_error_stays(
                                trees,
                                path@,
                                i as int + 1,
                                items@.len() as int,
                            );
                        }
                        return Err(error);
                    },
                }
                i = i + 1;
            }
            Ok(found)
        },
        _ => Err(DecodeError::WrongType { path: String::from_str(path) }),
    }
}

/// The answer of the API that holds a list of players: the document is an object, `data`
/// may be absent or `null`, and so may `message` and `location`.
pub open spec fn players_response_of(
    json: JsonView,
) -> Result<RumpusView<Seq<PlayerView>>, DecodeErrorView> {
    match json {
        JsonView::Object(fields) => {
            let data = match filled(fields, "data"@) {
                None => Ok(None),
                Some(value) => match player_list_of(value, "data"@) {
                    Ok(found) => Ok(Some(found)),
                    Err(error) => Err(error),
                },
            };
            let message = optional_text_of(fields, "message"@, Seq::empty());
            let location = optional_text_of(fields, "location"@, Seq::empty());
            if data is Err {
                Err(data->Err_0)
            } else if message is Err {
                Err(message->Err_0)
            } else if location is Err {
                Err(location->Err_0)
            } else {
                Ok(
                    RumpusView {
                        data: data->Ok_0, message: message->Ok_0, location: location->Ok_0,
                    },
                )
            }
        },
        _ => Err(DecodeErrorView::WrongType { path: Seq::empty() }),
    }
}

/// Decodes the answer of the API that holds a list of players from a document that has
/// been read.
pub fn players_response(json: &Json) -> (r: Result<Rumpus<Vec<Player>>, DecodeError>)
    ensures
        outcome(r) == players_response_of(json@),
{
    proof {
        reveal_strlit("");
        assert(""@ =~= Seq::<char>::empty());
    }
    match json {
        Json::Object(fields) => {
            proof {
                lemma_object_view(*fields);
            }
            let data = match member_filled(fields, "data") {
                None => None,
                Some(value) => {
                    proof {
                        assert(field_path(Seq::empty(), "data"@) == "data"@);
                    }
                    Some(player_list(value, "data")?)
                },
            };
            let message = optional_text(fields, "message", "")?;
            let location = optional_text(fields, "location", "")?;
            Ok(Rumpus { data, message, location })
        },
        _ => Err(DecodeError::WrongType { path: String::new() }),
    }
}

/// What decoding a text as the answer that holds a list of players gives: the place
/// where the text stops being JSON, or what the document decodes to.
pub open spec fn players_of_text(
    text: Seq<char>,
) -> Result<RumpusView<Seq<PlayerView>>, DecodeErrorView> {
    match document(text) {
        Ok(json) => players_response_of(json),
        Err(at) => Err(DecodeErrorView::Syntax { line: at.line, column: at.column }),
    }
}

/// Decodes the answer of the API that holds a list of players.
pub fn decode_players(text: &str) -> (r: Result<Rumpus<Vec<Player>>, DecodeError>)
    ensures
        outcome(r) == players_of_text(text@),
{
    match Json::parse(text) {
        Ok(json) => players_response(&json),
        Err(at) => Err(DecodeError::Syntax { line: at.line, column: at.column }),
    }
}

/// The answer of the API that holds one player: the document is an object, `data`
/// may be absent or `null`, and so may `message` and `location`.
pub open spec fn player_response_of(
    json: JsonView,
) -> Result<RumpusView<PlayerView>, DecodeErrorView> {
    match json {
        JsonView::Object(fields) => {
            let data = match filled(fields, "data"@) {
                None => Ok(None),
                Some(value) => match player_of(value, "data"@) {
                    Ok(found) => Ok(Some(found)),
                    Err(error) => Err(error),
                },
            };
            let message = optional_text_of(fields, "message"@, Seq::empty());
            let location = optional_text_of(fields, "location"@, Seq::empty());
            if data is Err {
                Err(data->Err_0)
            } else if message is Err {
                Err(message->Err_0)
            } else if location is Err {
                Err(location->Err_0)
            } else {
                Ok(
                    RumpusView {
                        data: data->Ok_0, message: message->Ok_0, location: location->Ok_0,
                    },
                )
            }
        },
        _ => Err(DecodeErrorView::WrongType { path: Seq::empty() }),
    }
}

/// Decodes the answer of the API that holds one player from a document that has
/// been read.
pub fn player_response(json: &Json) -> (r: Result<Rumpus<Player>, DecodeError>)
    ensures
        outcome(r) == player_response_of(json@),
{
    proof {
        reveal_strlit("");
        assert(""@ =~= Seq::<char>::empty());
    }
    match json {
        Json::Object(fields) => {
            proof {
                lemma_object_view(*fields);
            }
            let data = match member_filled(fields, "data") {
                None => None,
                Some(value) => {
                    proof {
                        assert(field_path(Seq::empty(), "data"@) == "data"@);
                    }
                    Some(player(value, "data")?)
                },
            };
            let message = optional_text(fields, "message", "")?;
            let location = optional_text(fields, "location", "")?;
            Ok(Rumpus { data, message, location })
        },
        _ => Err(DecodeError::WrongType { path: String::new() }),
    }
}

/// What decoding a text as the answer that holds one player gives: the place
/// where the text stops being JSON, or what the document decodes to.
pub open spec fn player_of_text(
    text: Seq<char>,
) -> Result<RumpusView<PlayerView>, DecodeErrorView> {
    match document(text) {
        Ok(json) => player_response_of(json),
        Err(at) => Err(DecodeErrorView::Syntax { line: at.line, column: at.column }),
    }
}

/// Decodes the answer of the API that holds one player.
pub fn decode_player(text: &str) -> (r: Result<Rumpus<Player>, DecodeError>)
    ensures
        outcome(r) == player_of_text(text@),
{
    match Json::parse(text) {
        Ok(json) => player_response(&json),
        Err(at) => Err(DecodeError::Syntax { line: at.line, column: at.column }),
    }
}

/// The answer of the API that holds the delegation key's record: the document is an object, `data`
/// may be absent or `null`, and so may `message` and `location`.
pub open spec fn key_info_response_of(
    json: JsonView,
) -> Result<RumpusView<DelegationKeyInfoView>, DecodeErrorView> {
    match json {
        JsonView::Object(fields) => {
            let data = match filled(fields, "data"@) {
                None => Ok(None),
                Some(value) => match key_info_of(value, "data"@) {
                    Ok(found) => Ok(Some(found)),
                    Err(error) => Err(error),
                },
            };
            let message = optional_text_of(fields, "message"@, Seq::empty());
            let location = optional_text_of(fields, "location"@, Seq::empty());
            if data is Err {
                Err(data->Err_0)
            } else if message is Err {
                Err(message->Err_0)
            } else if location is Err {
                Err(location->Err_0)
            } else {
                Ok(
                    RumpusView {
                        data: data->Ok_0, message: message->Ok_0, location: location->Ok_0,
                    },
                )
            }
        },
        _ => Err(DecodeErrorView::WrongType { path: Seq::empty() }),
    }
}

/// Decodes the answer of the API that holds the delegation key's record from a document that has
/// been read.
pub fn key_info_response(json: &Json) -> (r: Result<Rumpus<DelegationKeyInfo>, DecodeError>)
    ensures
        outcome(r) == key_info_response_of(json@),
{
    proof {
        reveal_strlit("");
        assert(""@ =~= Seq::<char>::empty());
    }
    match json {
        Json::Object(fields) => {
            proof {
                lemma_object_view(*fields);
            }
            let data = match member_filled(fields, "data") {
                None => None,
                Some(value) => {
                    proof {
                        assert(field_path(Seq::empty(), "data"@) == "data"@);
                    }
                    Some(key_info(value, "data")?)
                },
            };
            let message = optional_text(fields, "message", "")?;
            let location = optional_text(fields, "location", "")?;
            Ok(Rumpus { data, message, location })
        },
        _ => Err(DecodeError::WrongType { path: String::new() }),
    }
}

/// What decoding a text as the answer that holds the delegation key's record gives: the place
/// where the text stops being JSON, or what the document decodes to.
pub open spec fn key_info_of_text(
    text: Seq<char>,
) -> Result<RumpusView<DelegationKeyInfoView>, DecodeErrorView> {
    match document(text) {
        Ok(json) => key_info_response_of(json),
        Err(at) => Err(DecodeErrorView::Syntax { line: at.line, column: at.column }),
    }
}

/// Decodes the answer of the API that holds the delegation key's record.
pub fn decode_key_info(text: &str) -> (r: Result<Rumpus<DelegationKeyInfo>, DecodeError>)
    ensures
        outcome(r) == key_info_of_text(text@),
{
    match Json::parse(text) {
        Ok(json) => key_info_response(&json),
        Err(at) => Err(DecodeError::Syntax { line: at.line, column: at.column }),
    }
}

/// Every counter of a player that the API leaves out where it is zero decodes
/// to zero where it is absent, and the two counters that may be missing
/// altogether decode to `None`.
pub proof fn absent_player_counters_are_zero(fields: Seq<(Seq<char>, JsonView)>, path: Seq<char>)
    requires
        player_stats_of(JsonView::Object(fields), path) is Ok,
    ensures
        ({
            let stats = player_stats_of(JsonView::Object(fields), path)->Ok_0;
            &&& lookup(fields, "Published"@) is None ==> stats.published == 0
            &&& lookup(fields, "Plays"@) is None ==> stats.plays == 0
            &&& lookup(fields, "LevelsPlayed"@) is None ==> stats.levels_played == 0
            &&& lookup(fields, "Wins"@) is None ==> stats.wins == 0
            &&& lookup(fields, "Fails"@) is None ==> stats.fails == 0
            &&& lookup(fields, "ChalWins"@) is None ==> stats.tower_trials == 0
            &&& lookup(fields, "TimeTrophies"@) is None ==> stats.time_trophies == 0
            &&& lookup(fields, "FaveGen"@) is None ==> stats.fave_gen == 0
            &&& lookup(fields, "LikeGen"@) is None ==> stats.like_gen == 0
            &&& lookup(fields, "BucksTipped"@) is None ==> stats.bucks_tipped == 0
            &&& lookup(fields, "TipsGotten"@) is None ==> stats.tips_gotten == 0
            &&& lookup(fields, "CampaignProg"@) is None ==> stats.campaign_progress == 0
            &&& lookup(fields, "DBComp"@) is None ==> stats.d_b_comp is None
            &&& lookup(fields, "AchPoints"@) is None ==> stats.ach_points is None
        }),
{
    reveal(player_stats_of);
}

/// The name of the counter of published levels is the name of no other
/// field of the statistics.
proof fn lemma_published_is_its_own_name()
    ensures
        "Subscribers"@ != "Published"@,
        "Plays"@ != "Published"@,
        "PlayTime"@ != "Published"@,
        "Crowns"@ != "Published"@,
        "Shoes"@ != "Published"@,
        "LevelsPlayed"@ != "Published"@,
        "Wins"@ != "Published"@,
        "Fails"@ != "Published"@,
        "NumFollowing"@ != "Published"@,
        "DBComp"@ != "Published"@,
        "ChalWins"@ != "Published"@,
        "TimeTrophies"@ != "Published"@,
        "FaveGen"@ != "Published"@,
        "LikeGen"@ != "Published"@,
        "BucksTipped"@ != "Published"@,
        "TipsGotten"@ != "Published"@,
        "AchPoints"@ != "Published"@,
        "CampaignProg"@ != "Published"@,
{
    reveal_strlit("Published");
    reveal_strlit("Subscribers");
    reveal_strlit("Plays");
    reveal_strlit("PlayTime");
    reveal_strlit("Crowns");
    reveal_strlit("Shoes");
    reveal_strlit("LevelsPlayed");
    reveal_strlit("Wins");
    reveal_strlit("Fails");
    reveal_strlit("NumFollowing");
    reveal_strlit("DBComp");
    reveal_strlit("ChalWins");
    reveal_strlit("TimeTrophies");
    reveal_strlit("FaveGen");
    reveal_strlit("LikeGen");
    reveal_strlit("BucksTipped");
    reveal_strlit("TipsGotten");
    reveal_strlit("AchPoints");
    reveal_strlit("CampaignProg");
    assert("Subscribers"@[0] != "Published"@[0]);
    assert("Plays"@.len() != "Published"@.len());
    assert("PlayTime"@.len() != "Published"@.len());
    assert("Crowns"@.len() != "Published"@.len());
    assert("Shoes"@.len() != "Published"@.len());
    assert("LevelsPlayed"@.len() != "Published"@.len());
    assert("Wins"@.len() != "Published"@.len());
    assert("Fails"@.len() != "Published"@.len());
    assert("NumFollowing"@.len() != "Published"@.len());
    assert("DBComp"@.len() != "Published"@.len());
    assert("ChalWins"@.len() != "Published"@.len());
    assert("TimeTrophies"@.len() != "Published"@.len());
    assert("FaveGen"@.len() != "Published"@.len());
    assert("LikeGen"@.len() != "Published"@.len());
    assert("BucksTipped"@.len() != "Published"@.len());
    assert("TipsGotten"@.len() != "Published"@.len());
    assert("AchPoints"@[0] != "Published"@[0]);
    assert("CampaignProg"@.len() != "Published"@.len());
}

/// The absence of a counter that the API leaves out where it is zero is no
/// error: where statistics decode, they still decode without their counter
/// of published levels, to the same but for that counter, which is zero.
pub proof fn absent_player_counter_is_no_error(
    fields: Seq<(Seq<char>, JsonView)>,
    fewer: Seq<(Seq<char>, JsonView)>,
    path: Seq<char>,
)
    requires
        player_stats_of(JsonView::Object(fields), path) is Ok,
        lookup(fewer, "Published"@) is None,
        forall|name: Seq<char>|
            name != "Published"@ ==> #[trigger] lookup(fewer, name) == lookup(fields, name),
    ensures
        player_stats_of(JsonView::Object(fewer), path) == Ok::<PlayerStats, DecodeErrorView>(
            PlayerStats { published: 0, ..player_stats_of(JsonView::Object(fields), path)->Ok_0 },
        ),
{
    lemma_published_is_its_own_name();
    reveal(player_stats_of);
}

/// How much of the campaign a player has completed is a percentage: never
/// more than 100.
pub proof fn campaign_progress_is_a_percentage(fields: Seq<(Seq<char>, JsonView)>, path: Seq<char>)
    requires
        player_stats_of(JsonView::Object(fields), path) is Ok,
    ensures
        player_stats_of(JsonView::Object(fields), path)->Ok_0.campaign_progress <= 100,
{
    reveal(player_stats_of);
}

/// Shoes, crowns and published levels may be negative: where the field holds
/// the decimal numeral of a counter, negative or not, the statistics hold
/// that counter.
pub proof fn negative_player_counters_are_kept(
    fields: Seq<(Seq<char>, JsonView)>,
    path: Seq<char>,
    counter: i32,
)
    requires
        player_stats_of(JsonView::Object(fields), path) is Ok,
    ensures
        ({
            let stats = player_stats_of(JsonView::Object(fields), path)->Ok_0;
            let written = Some(JsonView::Number(decimal(counter as int)));
            &&& lookup(fields, "Shoes"@) == written ==> stats.shoes == counter
            &&& lookup(fields, "Crowns"@) == written ==> stats.crowns == counter
            &&& lookup(fields, "Published"@) == written ==> stats.published == counter
        }),
{
    reveal(player_stats_of);
    lemma_counter_round_trip(counter);
}

/// The alias of an account that could not be resolved: with `anonymous` set
/// and neither a name nor a kind, it decodes to just that.
pub proof fn anonymous_alias_decodes(
    fields: Seq<(Seq<char>, JsonView)>,
    path: Seq<char>,
    user_id: Seq<char>,
)
    requires
        lookup(fields, "userId"@) == Some(JsonView::Text(user_id)),
        lookup(fields, "context"@) is None,
        lookup(fields, "alias"@) is None,
        lookup(fields, "anonymous"@) == Some(JsonView::Bool(true)),
    ensures
        alias_of(JsonView::Object(fields), path) == Ok::<AliasView, DecodeErrorView>(
            AliasView { user_id, alias_type: None, alias: None, anonymous: Some(true) },
        ),
{
    reveal(alias_of);
}

/// An answer without `data` is no error: it decodes, with no data, whenever
/// its message and its location are text or absent.
pub proof fn answer_without_data_decodes(fields: Seq<(Seq<char>, JsonView)>)
    requires
        lookup(fields, "data"@) is None,
        optional_text_of(fields, "message"@, Seq::empty()) is Ok,
        optional_text_of(fields, "location"@, Seq::empty()) is Ok,
    ensures
        ({
            let message = optional_text_of(fields, "message"@, Seq::empty())->Ok_0;
            let location = optional_text_of(fields, "location"@, Seq::empty())->Ok_0;
            let json = JsonView::Object(fields);
            &&& players_response_of(json) == Ok::<RumpusView<Seq<PlayerView>>, DecodeErrorView>(
                RumpusView { data: None, message, location },
            )
            &&& player_response_of(json) == Ok::<RumpusView<PlayerView>, DecodeErrorView>(
                RumpusView { data: None, message, location },
            )
            &&& key_info_response_of(json) == Ok::<
                RumpusView<DelegationKeyInfoView>,
                DecodeErrorView,
            >(RumpusView { data: None, message, location })
        }),
{
}

} // verus!
