//! Typed records for the data the API returns.
//!
//! A record that holds text has a view in which the text is a sequence of
//! characters; a record of numbers and flags is its own view.

use vstd::prelude::*;

verus! {

/// A counter with an unknown upper bound. It is signed because the live data
/// holds players with a negative amount of shoes, crowns or published levels.
pub type Stat = i32;

/// The envelope that every endpoint answers with. `data` is absent where the
/// API reports an error.
#[derive(Debug, Clone, PartialEq, Eq)]
pub struct Rumpus<D> {
    pub data: Option<D>,
    pub message: Option<String>,
    pub location: Option<String>,
}

/// What a [`Rumpus`] holds.
pub struct RumpusView<V> {
    pub data: Option<V>,
    pub message: Option<Seq<char>>,
    pub location: Option<Seq<char>>,
}

impl<D: DeepView> DeepView for Rumpus<D> {
    type V = RumpusView<D::V>;

    open spec fn deep_view(&self) -> RumpusView<D::V> {
        RumpusView {
            data: self.data.deep_view(),
            message: self.message.deep_view(),
            location: self.location.deep_view(),
        }
    }
}

/// What the API knows about the delegation key of a request.
#[derive(Debug, Clone, PartialEq, Eq)]
pub struct DelegationKeyInfo {
    pub user_id: String,
    pub pass_id: String,
    pub permissions: Vec<String>,
}

/// What a [`DelegationKeyInfo`] holds.
pub struct DelegationKeyInfoView {
    pub user_id: Seq<char>,
    pub pass_id: Seq<char>,
    pub permissions: Seq<Seq<char>>,
}

impl DeepView for DelegationKeyInfo {
    type V = DelegationKeyInfoView;

    open spec fn deep_view(&self) -> DelegationKeyInfoView {
        DelegationKeyInfoView {
            user_id: self.user_id@,
            pass_id: self.pass_id@,
            permissions: self.permissions.deep_view(),
        }
    }
}

/// Another name for [`DelegationKeyInfo`], after the endpoint
/// `delegation/keys/@this`.
pub type DelegationKeyThis = DelegationKeyInfo;

/// Users have two aliases, one chosen by the user and one chosen by the
/// server. On the wire they are `levelhead` and `levelhead-safe`.
#[derive(Debug, Clone, Copy, PartialEq, Eq)]
pub enum AliasType {
    Levelhead,
    LevelheadSafe,
}

impl DeepView for AliasType {
    type V = AliasType;

    open spec fn deep_view(&self) -> AliasType {
        *self
    }
}

/// A player's name.
#[derive(Debug, Clone, PartialEq, Eq)]
pub struct Alias {
    /// Synonymous with "Rumpus Lookup Code".
    pub user_id: String,
    /// Doesn't occur when anonymous.
    pub alias_type: Option<AliasType>,
    /// The player's username inside Levelhead. Not set if the user does not
    /// have an alias.
    pub alias: Option<String>,
    /// If a player's username is not found, this field will exist and be set
    /// to `true`. This happens when a user has not yet played Levelhead, or
    /// if they've deleted their Rumpus account.
    pub anonymous: Option<bool>,
}

/// What an [`Alias`] holds.
pub struct AliasView {
    pub user_id: Seq<char>,
    pub alias_type: Option<AliasType>,
    pub alias: Option<Seq<char>>,
    pub anonymous: Option<bool>,
}

impl DeepView for Alias {
    type V = AliasView;

    open spec fn deep_view(&self) -> AliasView {
        AliasView {
            user_id: self.user_id@,
            alias_type: self.alias_type,
            alias: self.alias.deep_view(),
            anonymous: self.anonymous,
        }
    }
}

/// Various statistics about a player.
#[derive(Debug, Clone, Copy, PartialEq, Eq)]
pub struct PlayerStats {
    pub subscribers: Stat,
    pub published: Stat,
    pub plays: Stat,
    pub play_time: Stat,
    pub crowns: Stat,
    pub shoes: Stat,
    pub levels_played: Stat,
    pub wins: Stat,
    pub fails: Stat,
    pub num_following: Stat,
    pub d_b_comp: Option<Stat>,
    /// Tower trials completed, irregardless of if the time trophy was
    /// acquired.
    pub tower_trials: Stat,
    /// Tower trial time trophies acquired.
    pub time_trophies: Stat,
    pub fave_gen: Stat,
    pub like_gen: Stat,
    pub bucks_tipped: Stat,
    pub tips_gotten: Stat,
    /// Shown in the example in the documentation, but not returned.
    pub ach_points: Option<Stat>,
    /// Percentage how much of the campaign has been completed: from 0 to
    /// 100.
    pub campaign_progress: u8,
}

impl DeepView for PlayerStats {
    type V = PlayerStats;

    open spec fn deep_view(&self) -> PlayerStats {
        *self
    }
}

/// How the owner of the delegation key relates to a player.
#[derive(Debug, Clone, Copy, PartialEq, Eq)]
pub struct PlayerInteractions {
    pub following: bool,
}

impl DeepView for PlayerInteractions {
    type V = PlayerInteractions;

    open spec fn deep_view(&self) -> PlayerInteractions {
        *self
    }
}

/// A player profile.
#[derive(Debug, Clone, PartialEq, Eq)]
pub struct Player {
    pub id: String,
    pub user_id: String,
    pub alias: Option<Alias>,
    pub created_at: String,
    pub updated_at: String,
    pub interactions: Option<PlayerInteractions>,
    pub stats: PlayerStats,
}

/// What a [`Player`] holds.
pub struct PlayerView {
    pub id: Seq<char>,
    pub user_id: Seq<char>,
    pub alias: Option<AliasView>,
    pub created_at: Seq<char>,
    pub updated_at: Seq<char>,
    pub interactions: Option<PlayerInteractions>,
    pub stats: PlayerStats,
}

impl DeepView for Player {
    type V = PlayerView;

    open spec fn deep_view(&self) -> PlayerView {
        PlayerView {
            id: self.id@,
            user_id: self.user_id@,
            alias: self.alias.deep_view(),
            created_at: self.created_at@,
            updated_at: self.updated_at@,
            interactions: self.interactions,
            stats: self.stats,
        }
    }
}

/// One entry of a leaderboard.
#[derive(Debug, Clone, PartialEq, Eq)]
pub struct Record {
    pub user_id: String,
    pub alias: Alias,
    /// The score or the time, as the numeral that the API wrote.
    pub value: String,
    pub created_at: String,
}

/// What a [`Record`] holds.
pub struct RecordView {
    pub user_id: Seq<char>,
    pub alias: AliasView,
    pub value: Seq<char>,
    pub created_at: Seq<char>,
}

impl DeepView for Record {
    type V = RecordView;

    open spec fn deep_view(&self) -> RecordView {
        RecordView {
            user_id: self.user_id@,
            alias: self.alias.deep_view(),
            value: self.value@,
            created_at: self.created_at@,
        }
    }
}

/// Indicator how much objects of certain categories a level has.
#[derive(Debug, Clone, Copy, PartialEq, Eq)]
pub struct LevelContents {
    pub world: Stat,
    pub movement: Stat,
    pub puzzles: Stat,
    pub enemies: Stat,
    pub hazards: Stat,
}

impl DeepView for LevelContents {
    type V = LevelContents;

    open spec fn deep_view(&self) -> LevelContents {
        *self
    }
}

/// Various statistics about a level. The rates and the time per win are not
/// whole numbers: they are held as the numerals that the API wrote.
#[derive(Debug, Clone, PartialEq, Eq)]
pub struct LevelStats {
    pub attempts: Stat,
    pub favorites: Stat,
    pub likes: Stat,
    pub perk_points: Option<Stat>,
    pub play_time: Stat,
    pub players: Stat,
    pub replay_value: Stat,
    pub clear_rate: String,
    /// Difficulty diamonds. 6 for uncleared.
    pub diamonds: u8,
    pub successes: Stat,
    pub time_per_win: String,
    pub exposure_bucks: Stat,
    pub failure_rate: String,
    pub hidden_gem: Stat,
}

/// What a [`LevelStats`] holds.
pub struct LevelStatsView {
    pub attempts: Stat,
    pub favorites: Stat,
    pub likes: Stat,
    pub perk_points: Option<Stat>,
    pub play_time: Stat,
    pub players: Stat,
    pub replay_value: Stat,
    pub clear_rate: Seq<char>,
    pub diamonds: u8,
    pub successes: Stat,
    pub time_per_win: Seq<char>,
    pub exposure_bucks: Stat,
    pub failure_rate: Seq<char>,
    pub hidden_gem: Stat,
}

impl DeepView for LevelStats {
    type V = LevelStatsView;

    open spec fn deep_view(&self) -> LevelStatsView {
        LevelStatsView {
            attempts: self.attempts,
            favorites: self.favorites,
            likes: self.likes,
            perk_points: self.perk_points,
            play_time: self.play_time,
            players: self.players,
            replay_value: self.replay_value,
            clear_rate: self.clear_rate@,
            diamonds: self.diamonds,
            successes: self.successes,
            time_per_win: self.time_per_win@,
            exposure_bucks: self.exposure_bucks,
            failure_rate: self.failure_rate@,
            hidden_gem: self.hidden_gem,
        }
    }
}

/// The leaderboards of a level.
#[derive(Debug, Clone, PartialEq, Eq)]
pub struct LevelRecords {
    pub high_score: Vec<Record>,
    pub fastest_time: Vec<Record>,
}

/// What a [`LevelRecords`] holds.
pub struct LevelRecordsView {
    pub high_score: Seq<RecordView>,
    pub fastest_time: Seq<RecordView>,
}

impl DeepView for LevelRecords {
    type V = LevelRecordsView;

    open spec fn deep_view(&self) -> LevelRecordsView {
        LevelRecordsView {
            high_score: self.high_score.deep_view(),
            fastest_time: self.fastest_time.deep_view(),
        }
    }
}

/// What the owner of the delegation key did with a level. A flag that the API
/// leaves out is false.
#[derive(Debug, Clone, Copy, PartialEq, Eq)]
pub struct LevelInteractions {
    pub bookmarked: bool,
    pub liked: bool,
    pub favorited: bool,
}

impl DeepView for LevelInteractions {
    type V = LevelInteractions;

    open spec fn deep_view(&self) -> LevelInteractions {
        *self
    }
}

impl Default for LevelInteractions {
    fn default() -> (interactions: Self)
        ensures
            interactions == (LevelInteractions {
                bookmarked: false,
                liked: false,
                favorited: false,
            }),
    {
        LevelInteractions { bookmarked: false, liked: false, favorited: false }
    }
}

/// A level.
#[derive(Debug, Clone, PartialEq, Eq)]
pub struct Level {
    pub id: String,
    /// Content version.
    pub cv: Stat,
    pub level_id: String,
    pub user_id: String,
    pub alias: Option<Alias>,
    pub avatar_id: String,
    pub title: String,
    pub locale_id: Stat,
    pub locale: String,
    pub created_at: String,
    pub updated_at: String,
    pub tower: Option<bool>,
    pub daily_build: Option<bool>,
    pub tower_trial: bool,
    pub required_players: u8,
    /// In seconds, as the numeral that the API wrote. Appears to have 2
    /// significant decimals.
    pub creator_time: String,
    pub game_version: Option<String>,
    pub tags: Vec<String>,
    pub tag_names: Vec<String>,
    pub content: LevelContents,
    pub stats: Option<LevelStats>,
    pub records: Option<LevelRecords>,
    pub interactions: Option<LevelInteractions>,
}

/// What a [`Level`] holds.
pub struct LevelView {
    pub id: Seq<char>,
    pub cv: Stat,
    pub level_id: Seq<char>,
    pub user_id: Seq<char>,
    pub alias: Option<AliasView>,
    pub avatar_id: Seq<char>,
    pub title: Seq<char>,
    pub locale_id: Stat,
    pub locale: Seq<char>,
    pub created_at: Seq<char>,
    pub updated_at: Seq<char>,
    pub tower: Option<bool>,
    pub daily_build: Option<bool>,
    pub tower_trial: bool,
    pub required_players: u8,
    pub creator_time: Seq<char>,
    pub game_version: Option<Seq<char>>,
    pub tags: Seq<Seq<char>>,
    pub tag_names: Seq<Seq<char>>,
    pub content: LevelContents,
    pub stats: Option<LevelStatsView>,
    pub records: Option<LevelRecordsView>,
    pub interactions: Option<LevelInteractions>,
}

impl DeepView for Level {
    type V = LevelView;

    open spec fn deep_view(&self) -> LevelView {
        LevelView {
            id: self.id@,
            cv: self.cv,
            level_id: self.level_id@,
            user_id: self.user_id@,
            alias: self.alias.deep_view(),
            avatar_id: self.avatar_id@,
            title: self.title@,
            locale_id: self.locale_id,
            locale: self.locale@,
            created_at: self.created_at@,
            updated_at: self.updated_at@,
            tower: self.tower,
            daily_build: self.daily_build,
            tower_trial: self.tower_trial,
            required_players: self.required_players,
            creator_time: self.creator_time@,
            game_version: self.game_version.deep_view(),
            tags: self.tags.deep_view(),
            tag_names: self.tag_names.deep_view(),
            content: self.content,
            stats: self.stats.deep_view(),
            records: self.records.deep_view(),
            interactions: self.interactions,
        }
    }
}

impl Level {
    /// What the owner of the delegation key did with the level: nothing
    /// where the API sent no interactions.
    pub fn interactions_or_default(&self) -> (interactions: LevelInteractions)
        ensures
            interactions == match self.interactions {
                Some(found) => found,
                None => (LevelInteractions { bookmarked: false, liked: false, favorited: false }),
            },
    {
        match self.interactions {
            Some(found) => found,
            None => LevelInteractions::default(),
        }
    }
}

} // verus!
