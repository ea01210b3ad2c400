//! The parameters of a level search.

use crate::query::encode::{
    flag_param, has_segment, joined, lemma_joined_push, lemma_param_is_segment,
    lemma_present_step, lemma_query_of_nothing, list_param, number_param, pair, present,
    query_string, segment_at, some_int_i32, some_int_u8, text_param, Writer,
};
use crate::query::limit::LimitError;
use crate::query::player::owned_strings;
use crate::query::sort::{LevelSearchSort, LevelSortProperty, Sort, SortView};
use crate::text::decimal;
use crate::types::Stat;
use vstd::prelude::*;
use vstd::string::StringExecFns;

verus! {

/// A search for levels. Every parameter is optional: one that is absent
/// neither filters, sorts nor pages.
#[derive(Debug, Clone, PartialEq, Eq)]
pub struct LevelSearch {
    /// The parameter you want to sort on. By default it returns results from
    /// largest to smallest.
    pub sort: Option<LevelSearchSort>,
    /// Maximum number of results to return. There is a hard limit of
    /// [`Self::MAX_LIMIT`].
    pub limit: Option<u8>,
    /// Up to [`Self::MAX_USERS`] user ids. If set, only levels created by the
    /// users in this list will be returned.
    pub user_ids: Option<Vec<String>>,
    /// Up to [`Self::MAX_LEVELS`] level ids (a.k.a. "share codes"). If set,
    /// only levels listed here will be returned.
    pub level_ids: Option<Vec<String>>,
    /// A tag id that levels must have. This must be a tag id, not the
    /// human-friendly, localized tag text.
    pub tags: Option<String>,
    /// Only tower levels are searched by default unless the user ids or level
    /// ids are set. In those cases only return Tower levels by setting this
    /// to true.
    pub tower: Option<bool>,
    /// If true, only levels in the Marketing department are returned.
    pub marketing: Option<bool>,
    /// If true, only levels that were made for a daily build are returned.
    /// Cannot be set in conjunction with marketing.
    pub daily_build: Option<bool>,
    /// To save bandwidth, level stats are not returned by default.
    pub include_stats: Option<bool>,
    /// To save bandwidth, leaderboards are not returned by default.
    pub include_records: Option<bool>,
    /// If true, will add the alias to the level and to all records. Only set
    /// this if you will be using all returned aliases.
    pub include_aliases: Option<bool>,
    /// Limit results to those levels accumulating at least this many seconds
    /// of playtime. Can only be used with Tower searches.
    pub min_play_time: Option<Stat>,
    /// Limit results to those levels accumulating at most this many seconds of
    /// playtime. Can only be used with Tower searches.
    pub max_play_time: Option<Stat>,
    /// Limit results to those levels accumulating at least this many Exposure
    /// Bucks. Can only be used with Marketing searches.
    pub min_exposure_bucks: Option<Stat>,
    /// Limit results to those levels accumulating at most this many Exposure
    /// Bucks. Can only be used with Marketing searches.
    pub max_exposure_bucks: Option<Stat>,
    /// Limit results to those levels with at least this "ReplayValue". Can
    /// only be used with Tower searches.
    pub min_replay_value: Option<Stat>,
    /// Limit results to those levels with at most this "ReplayValue". Can only
    /// be used with Tower searches.
    pub max_replay_value: Option<Stat>,
    /// Limit results to those levels with at least this "HiddenGem". Can only
    /// be used with Tower searches.
    pub min_hidden_gem: Option<Stat>,
    /// Limit results to those levels with at most this "HiddenGem". Can only
    /// be used with Tower searches.
    pub max_hidden_gem: Option<Stat>,
    /// Limit results to those with exactly this many diamonds (causes the
    /// minimum and maximum to be ignored).
    pub diamonds: Option<u8>,
    /// Limit results to those levels with at least this many difficulty
    /// diamonds. Can only be used with Tower searches.
    pub min_diamonds: Option<Stat>,
    /// Limit results to those levels with at most this many difficulty
    /// diamonds. Can only be used with Tower searches.
    pub max_diamonds: Option<Stat>,
    /// Limit results to those levels published no less than this many seconds
    /// ago.
    pub min_seconds_ago: Option<Stat>,
    /// Limit results to those levels published no more than this many seconds
    /// ago.
    pub max_seconds_ago: Option<Stat>,
    /// If sorting based on a value that can contain ties, subsequent pages
    /// will contain repeated results on ties. Results are secondarily sorted
    /// on the id: give the id of the last result of the prior page here to
    /// page even when there are ties.
    pub tiebreaker_item_id: Option<String>,
    /// Return levels created at or after this date. Must be parsable by
    /// Javascript `new Date()`.
    pub min_created_at: Option<String>,
    /// Return levels created at or before this date. Must be parsable by
    /// Javascript `new Date()`.
    pub max_created_at: Option<String>,
    /// If true, information about your interactions with returned levels will
    /// be included in the response.
    pub include_my_interactions: Option<bool>,
    /// If true, levels that can only be played on beta clients will also be
    /// included.
    pub include_beta: Option<bool>,
}

/// What a [`LevelSearch`] holds.
pub struct LevelSearchView {
    pub sort: Option<SortView<LevelSortProperty>>,
    pub limit: Option<int>,
    pub user_ids: Option<Seq<Seq<char>>>,
    pub level_ids: Option<Seq<Seq<char>>>,
    pub tags: Option<Seq<char>>,
    pub tower: Option<bool>,
    pub marketing: Option<bool>,
    pub daily_build: Option<bool>,
    pub include_stats: Option<bool>,
    pub include_records: Option<bool>,
    pub include_aliases: Option<bool>,
    pub min_play_time: Option<int>,
    pub max_play_time: Option<int>,
    pub min_exposure_bucks: Option<int>,
    pub max_exposure_bucks: Option<int>,
    pub min_replay_value: Option<int>,
    pub max_replay_value: Option<int>,
    pub min_hidden_gem: Option<int>,
    pub max_hidden_gem: Option<int>,
    pub diamonds: Option<int>,
    pub min_diamonds: Option<int>,
    pub max_diamonds: Option<int>,
    pub min_seconds_ago: Option<int>,
    pub max_seconds_ago: Option<int>,
    pub tiebreaker_item_id: Option<Seq<char>>,
    pub min_created_at: Option<Seq<char>>,
    pub max_created_at: Option<Seq<char>>,
    pub include_my_interactions: Option<bool>,
    pub include_beta: Option<bool>,
}

/// One parameter of a level search together with a value for it.
pub enum LevelSetting {
    UserIds(Seq<Seq<char>>),
    LevelIds(Seq<Seq<char>>),
    Sort(SortView<LevelSortProperty>),
    Limit(int),
    Tags(Seq<char>),
    Tower(bool),
    Marketing(bool),
    DailyBuild(bool),
    IncludeStats(bool),
    IncludeRecords(bool),
    IncludeAliases(bool),
    MinPlayTime(int),
    MaxPlayTime(int),
    MinExposureBucks(int),
    MaxExposureBucks(int),
    MinReplayValue(int),
    MaxReplayValue(int),
    MinHiddenGem(int),
    MaxHiddenGem(int),
    Diamonds(int),
    MinDiamonds(int),
    MaxDiamonds(int),
    MinSecondsAgo(int),
    MaxSecondsAgo(int),
    MinCreatedAt(Seq<char>),
    MaxCreatedAt(Seq<char>),
    IncludeMyInteractions(bool),
    IncludeBeta(bool),
    TiebreakerItemId(Seq<char>),
}

impl LevelSetting {
    /// The place of the parameter in the query string, counted from zero.
    pub open spec fn position(self) -> int {
        match self {
            LevelSetting::UserIds(_) => 0,
            LevelSetting::LevelIds(_) => 1,
            LevelSetting::Sort(_) => 2,
            LevelSetting::Limit(_) => 3,
            LevelSetting::Tags(_) => 4,
            LevelSetting::Tower(_) => 5,
            LevelSetting::Marketing(_) => 6,
            LevelSetting::DailyBuild(_) => 7,
            LevelSetting::IncludeStats(_) => 8,
            LevelSetting::IncludeRecords(_) => 9,
            LevelSetting::IncludeAliases(_) => 10,
            LevelSetting::MinPlayTime(_) => 11,
            LevelSetting::MaxPlayTime(_) => 12,
            LevelSetting::MinExposureBucks(_) => 13,
            LevelSetting::MaxExposureBucks(_) => 14,
            LevelSetting::MinReplayValue(_) => 15,
            LevelSetting::MaxReplayValue(_) => 16,
            LevelSetting::MinHiddenGem(_) => 17,
            LevelSetting::MaxHiddenGem(_) => 18,
            LevelSetting::Diamonds(_) => 19,
            LevelSetting::MinDiamonds(_) => 20,
            LevelSetting::MaxDiamonds(_) => 21,
            LevelSetting::MinSecondsAgo(_) => 22,
            LevelSetting::MaxSecondsAgo(_) => 23,
            LevelSetting::MinCreatedAt(_) => 24,
            LevelSetting::MaxCreatedAt(_) => 25,
            LevelSetting::IncludeMyInteractions(_) => 26,
            LevelSetting::IncludeBeta(_) => 27,
            LevelSetting::TiebreakerItemId(_) => 28,
        }
    }
}

impl LevelSearchView {
    /// The search without any parameter.
    pub open spec fn empty() -> LevelSearchView {
        LevelSearchView {
            sort: None,
            limit: None,
            user_ids: None,
            level_ids: None,
            tags: None,
            tower: None,
            marketing: None,
            daily_build: None,
            include_stats: None,
            include_records: None,
            include_aliases: None,
            min_play_time: None,
            max_play_time: None,
            min_exposure_bucks: None,
            max_exposure_bucks: None,
            min_replay_value: None,
            max_replay_value: None,
            min_hidden_gem: None,
            max_hidden_gem: None,
            diamonds: None,
            min_diamonds: None,
            max_diamonds: None,
            min_seconds_ago: None,
            max_seconds_ago: None,
            tiebreaker_item_id: None,
            min_created_at: None,
            max_created_at: None,
            include_my_interactions: None,
            include_beta: None,
        }
    }

    /// The search with one parameter set, whatever it held before; the others
    /// are kept.
    pub open spec fn with(self, setting: LevelSetting) -> LevelSearchView {
        match setting {
            LevelSetting::UserIds(value) => LevelSearchView { user_ids: Some(value), ..self },
            LevelSetting::LevelIds(value) => LevelSearchView { level_ids: Some(value), ..self },
            LevelSetting::Sort(value) => LevelSearchView { sort: Some(value), ..self },
            LevelSetting::Limit(value) => LevelSearchView { limit: Some(value), ..self },
            LevelSetting::Tags(value) => LevelSearchView { tags: Some(value), ..self },
            LevelSetting::Tower(value) => LevelSearchView { tower: Some(value), ..self },
            LevelSetting::Marketing(value) => LevelSearchView { marketing: Some(value), ..self },
            LevelSetting::DailyBuild(value) => LevelSearchView { daily_build: Some(value), ..self },
            LevelSetting::IncludeStats(value) => LevelSearchView {
                include_stats: Some(value),
                ..self
            },
            LevelSetting::IncludeRecords(value) => LevelSearchView {
                include_records: Some(value),
                ..self
            },
            LevelSetting::IncludeAliases(value) => LevelSearchView {
                include_aliases: Some(value),
                ..self
            },
            LevelSetting::MinPlayTime(value) => LevelSearchView {
                min_play_time: Some(value),
                ..self
            },
            LevelSetting::MaxPlayTime(value) => LevelSearchView {
                max_play_time: Some(value),
                ..self
            },
            LevelSetting::MinExposureBucks(value) => LevelSearchView {
                min_exposure_bucks: Some(value),
                ..self
            },
            LevelSetting::MaxExposureBucks(value) => LevelSearchView {
                max_exposure_bucks: Some(value),
                ..self
            },
            LevelSetting::MinReplayValue(value) => LevelSearchView {
                min_replay_value: Some(value),
                ..self
            },
            LevelSetting::MaxReplayValue(value) => LevelSearchView {
                max_replay_value: Some(value),
                ..self
            },
            LevelSetting::MinHiddenGem(value) => LevelSearchView {
                min_hidden_gem: Some(value),
                ..self
            },
            LevelSetting::MaxHiddenGem(value) => LevelSearchView {
                max_hidden_gem: Some(value),
                ..self
            },
            LevelSetting::Diamonds(value) => LevelSearchView { diamonds: Some(value), ..self },
            LevelSetting::MinDiamonds(value) => LevelSearchView {
                min_diamonds: Some(value),
                ..self
            },
            LevelSetting::MaxDiamonds(value) => LevelSearchView {
                max_diamonds: Some(value),
                ..self
            },
            LevelSetting::MinSecondsAgo(value) => LevelSearchView {
                min_seconds_ago: Some(value),
                ..self
            },
            LevelSetting::MaxSecondsAgo(value) => LevelSearchView {
                max_seconds_ago: Some(value),
                ..self
            },
            LevelSetting::MinCreatedAt(value) => LevelSearchView {
                min_created_at: Some(value),
                ..self
            },
            LevelSetting::MaxCreatedAt(value) => LevelSearchView {
                max_created_at: Some(value),
                ..self
            },
            LevelSetting::IncludeMyInteractions(value) => LevelSearchView {
                include_my_interactions: Some(value),
                ..self
            },
            LevelSetting::IncludeBeta(value) => LevelSearchView {
                include_beta: Some(value),
                ..self
            },
            LevelSetting::TiebreakerItemId(value) => LevelSearchView {
                tiebreaker_item_id: Some(value),
                ..self
            },
        }
    }

    /// The parameter at a place of the query string, as it is written there,
    /// or `None` where the search does not hold it. The user ids and the
    /// level ids come first and the tiebreaker comes last.
    pub open spec fn param(self, position: int) -> Option<Seq<char>> {
        if position == 0 {
            list_param("userIds"@, self.user_ids)
        } else if position == 1 {
            list_param("levelIds"@, self.level_ids)
        } else if position == 2 {
            text_param(
                "sort"@,
                match self.sort {
                    Some(sort) => Some(sort.text()),
                    None => None,
                },
            )
        } else if position == 3 {
            number_param("limit"@, self.limit)
        } else if position == 4 {
            text_param("tags"@, self.tags)
        } else if position == 5 {
            flag_param("tower"@, self.tower)
        } else if position == 6 {
            flag_param("marketing"@, self.marketing)
        } else if position == 7 {
            flag_param("dailyBuild"@, self.daily_build)
        } else if position == 8 {
            flag_param("includeStats"@, self.include_stats)
        } else if position == 9 {
            flag_param("includeRecords"@, self.include_records)
        } else if position == 10 {
            flag_param("includeAliases"@, self.include_aliases)
        } else if position == 11 {
            number_param("minPlayTime"@, self.min_play_time)
        } else if position == 12 {
            number_param("maxPlayTime"@, self.max_play_time)
        } else if position == 13 {
            number_param("minExposureBucks"@, self.min_exposure_bucks)
        } else if position == 14 {
            number_param("maxExposureBucks"@, self.max_exposure_bucks)
        } else if position == 15 {
            number_param("minReplayValue"@, self.min_replay_value)
        } else if position == 16 {
            number_param("maxReplayValue"@, self.max_replay_value)
        } else if position == 17 {
            number_param("minHiddenGem"@, self.min_hidden_gem)
        } else if position == 18 {
            number_param("maxHiddenGem"@, self.max_hidden_gem)
        } else if position == 19 {
            number_param("diamonds"@, self.diamonds)
        } else if position == 20 {
            number_param("minDiamonds"@, self.min_diamonds)
        } else if position == 21 {
            number_param("maxDiamonds"@, self.max_diamonds)
        } else if position == 22 {
            number_param("minSecondsAgo"@, self.min_seconds_ago)
        } else if position == 23 {
            number_param("maxSecondsAgo"@, self.max_seconds_ago)
        } else if position == 24 {
            text_param("minCreatedAt"@, self.min_created_at)
        } else if position == 25 {
            text_param("maxCreatedAt"@, self.max_created_at)
        } else if position == 26 {
            flag_param("includeMyInteractions"@, self.include_my_interactions)
        } else if position == 27 {
            flag_param("includeBeta"@, self.include_beta)
        } else {
            text_param("tiebreakerItemId"@, self.tiebreaker_item_id)
        }
    }

    /// All parameters in the order of the query string.
    pub open spec fn params(self) -> Seq<Option<Seq<char>>> {
        Seq::new(29, |position: int| self.param(position))
    }

    /// The query string of the search.
    pub open spec fn query(self) -> Seq<char> {
        query_string(self.params())
    }
}

impl View for LevelSearch {
    type V = LevelSearchView;

    open spec fn view(&self) -> LevelSearchView {
        LevelSearchView {
            sort: match self.sort {
                Some(sort) => Some(sort@),
                None => None,
            },
            limit: some_int_u8(self.limit),
            user_ids: self.user_ids.deep_view(),
            level_ids: self.level_ids.deep_view(),
            tags: self.tags.deep_view(),
            tower: self.tower,
            marketing: self.marketing,
            daily_build: self.daily_build,
            include_stats: self.include_stats,
            include_records: self.include_records,
            include_aliases: self.include_aliases,
            min_play_time: some_int_i32(self.min_play_time),
            max_play_time: some_int_i32(self.max_play_time),
            min_exposure_bucks: some_int_i32(self.min_exposure_bucks),
            max_exposure_bucks: some_int_i32(self.max_exposure_bucks),
            min_replay_value: some_int_i32(self.min_replay_value),
            max_replay_value: some_int_i32(self.max_replay_value),
            min_hidden_gem: some_int_i32(self.min_hidden_gem),
            max_hidden_gem: some_int_i32(self.max_hidden_gem),
            diamonds: some_int_u8(self.diamonds),
            min_diamonds: some_int_i32(self.min_diamonds),
            max_diamonds: some_int_i32(self.max_diamonds),
            min_seconds_ago: some_int_i32(self.min_seconds_ago),
            max_seconds_ago: some_int_i32(self.max_seconds_ago),
            tiebreaker_item_id: self.tiebreaker_item_id.deep_view(),
            min_created_at: self.min_created_at.deep_view(),
            max_created_at: self.max_created_at.deep_view(),
            include_my_interactions: self.include_my_interactions,
            include_beta: self.include_beta,
        }
    }
}

impl Default for LevelSearch {
    fn default() -> (search: Self)
        ensures
            search@ == LevelSearchView::empty(),
    {
        LevelSearch {
            sort: None,
            limit: None,
            user_ids: None,
            level_ids: None,
            tags: None,
            tower: None,
            marketing: None,
            daily_build: None,
            include_stats: None,
            include_records: None,
            include_aliases: None,
            min_play_time: None,
            max_play_time: None,
            min_exposure_bucks: None,
            max_exposure_bucks: None,
            min_replay_value: None,
            max_replay_value: None,
            min_hidden_gem: None,
            max_hidden_gem: None,
            diamonds: None,
            min_diamonds: None,
            max_diamonds: None,
            min_seconds_ago: None,
            max_seconds_ago: None,
            tiebreaker_item_id: None,
            min_created_at: None,
            max_created_at: None,
            include_my_interactions: None,
            include_beta: None,
        }
    }
}

impl LevelSearch {
    /// The largest `limit` that is accepted.
    pub const MAX_LIMIT: usize = 64;

    /// The largest amount of user ids that is accepted.
    pub const MAX_USERS: usize = 16;

    /// The largest amount of level ids that is accepted.
    pub const MAX_LEVELS: usize = 16;

    /// A search without any parameter.
    pub fn new() -> (search: Self)
        ensures
            search@ == LevelSearchView::empty(),
    {
        Self::default()
    }

    /// Sorts the results on a property, from smallest to largest if
    /// `ascending`.
    pub fn sort(self, property: LevelSortProperty, ascending: bool) -> (search: Self)
        ensures
            search@ == self@.with(LevelSetting::Sort(SortView { ascending, property })),
    {
        let mut search = self;
        search.sort = Some(Sort::new(property, ascending));
        search
    }

    /// Maximum number of results to return. Fails if `limit` is higher than
    /// [`Self::MAX_LIMIT`].
    pub fn limit(self, limit: u8) -> (result: Result<Self, LimitError>)
        ensures
            match result {
                Ok(search) => {
                    &&& limit <= 64
                    &&& search@ == self@.with(LevelSetting::Limit(limit as int))
                    &&& has_segment(search@.query(), pair("limit"@, decimal(limit as int)))
                },
                Err(e) => limit > 64 && e == (LimitError { value: limit as usize, maximum: 64 }),
            },
    {
        if limit as usize > Self::MAX_LIMIT {
            Err(LimitError::new(limit as usize, Self::MAX_LIMIT))
        } else {
            let mut search = self;
            search.limit = Some(limit);
            proof {
                level_query_holds_limit(self@, limit as int);
            }
            Ok(search)
        }
    }

    /// Limits results to levels of these users; the ids replace any given
    /// before. Fails if there are more than [`Self::MAX_USERS`] of them.
    pub fn user_ids(self, user_ids: Vec<&str>) -> (result: Result<Self, LimitError>)
        ensures
            match result {
                Ok(search) => {
                    &&& user_ids.len() <= 16
                    &&& search@ == self@.with(LevelSetting::UserIds(user_ids.deep_view()))
                    &&& segment_at(
                        search@.query(),
                        0,
                        pair("userIds"@, joined(user_ids.deep_view(), ',')),
                    )
                },
                Err(e) => user_ids.len() > 16 && e == (LimitError {
                    value: user_ids.len(),
                    maximum: 16,
                }),
            },
    {
        if user_ids.len() > Self::MAX_USERS {
            Err(LimitError::new(user_ids.len(), Self::MAX_USERS))
        } else {
            let mut search = self;
            search.user_ids = Some(owned_strings(&user_ids));
            proof {
                level_query_starts_with_user_ids(self@, user_ids.deep_view());
            }
            Ok(search)
        }
    }

    /// Limits results to these levels; the ids replace any given before.
    /// Fails if there are more than [`Self::MAX_LEVELS`] of them.
    pub fn level_ids(self, level_ids: Vec<&str>) -> (result: Result<Self, LimitError>)
        ensures
            match result {
                Ok(search) => level_ids.len() <= 16 && search@ == self@.with(
                    LevelSetting::LevelIds(level_ids.deep_view()),
                ),
                Err(e) => level_ids.len() > 16 && e == (LimitError {
                    value: level_ids.len(),
                    maximum: 16,
                }),
            },
    {
        if level_ids.len() > Self::MAX_LEVELS {
            Err(LimitError::new(level_ids.len(), Self::MAX_LEVELS))
        } else {
            let mut search = self;
            search.level_ids = Some(owned_strings(&level_ids));
            Ok(search)
        }
    }

    /// Limits results to levels that have this tag id.
    pub fn tags(self, tags: &str) -> (search: Self)
        ensures
            search@ == self@.with(LevelSetting::Tags(tags@)),
    {
        let mut search = self;
        search.tags = Some(String::from_str(tags));
        search
    }

    /// Limits results to Tower levels.
    pub fn tower(self, tower: bool) -> (search: Self)
        ensures
            search@ == self@.with(LevelSetting::Tower(tower)),
    {
        let mut search = self;
        search.tower = Some(tower);
        search
    }

    /// Limits results to levels in the Marketing department.
    pub fn marketing(self, marketing: bool) -> (search: Self)
        ensures
            search@ == self@.with(LevelSetting::Marketing(marketing)),
    {
        let mut search = self;
        search.marketing = Some(marketing);
        search
    }

    /// Limits results to levels made for a daily build.
    pub fn daily_build(self, daily_build: bool) -> (search: Self)
        ensures
            search@ == self@.with(LevelSetting::DailyBuild(daily_build)),
    {
        let mut search = self;
        search.daily_build = Some(daily_build);
        search
    }

    /// Asks for the stats of each level.
    pub fn include_stats(self, include_stats: bool) -> (search: Self)
        ensures
            search@ == self@.with(LevelSetting::IncludeStats(include_stats)),
    {
        let mut search = self;
        search.include_stats = Some(include_stats);
        search
    }

    /// Asks for the leaderboards of each level.
    pub fn include_records(self, include_records: bool) -> (search: Self)
        ensures
            search@ == self@.with(LevelSetting::IncludeRecords(include_records)),
    {
        let mut search = self;
        search.include_records = Some(include_records);
        search
    }

    /// Asks for the alias of each level's creator.
    pub fn include_aliases(self, include_aliases: bool) -> (search: Self)
        ensures
            search@ == self@.with(LevelSetting::IncludeAliases(include_aliases)),
    {
        let mut search = self;
        search.include_aliases = Some(include_aliases);
        search
    }

    /// Limits results to levels with at least this many seconds of playtime.
    pub fn min_play_time(self, min_play_time: Stat) -> (search: Self)
        ensures
            search@ == self@.with(LevelSetting::MinPlayTime(min_play_time as int)),
    {
        let mut search = self;
        search.min_play_time = Some(min_play_time);
        search
    }

    /// Limits results to levels with at most this many seconds of playtime.
    pub fn max_play_time(self, max_play_time: Stat) -> (search: Self)
        ensures
            search@ == self@.with(LevelSetting::MaxPlayTime(max_play_time as int)),
    {
        let mut search = self;
        search.max_play_time = Some(max_play_time);
        search
    }

    /// Limits results to levels with at least this many Exposure Bucks.
    pub fn min_exposure_bucks(self, min_exposure_bucks: Stat) -> (search: Self)
        ensures
            search@ == self@.with(LevelSetting::MinExposureBucks(min_exposure_bucks as int)),
    {
        let mut search = self;
        search.min_exposure_bucks = Some(min_exposure_bucks);
        search
    }

    /// Limits results to levels with at most this many Exposure Bucks.
    pub fn max_exposure_bucks(self, max_exposure_bucks: Stat) -> (search: Self)
        ensures
            search@ == self@.with(LevelSetting::MaxExposureBucks(max_exposure_bucks as int)),
    {
        let mut search = self;
        search.max_exposure_bucks = Some(max_exposure_bucks);
        search
    }

    /// Limits results to levels with at least this replay value.
    pub fn min_replay_value(self, min_replay_value: Stat) -> (search: Self)
        ensures
            search@ == self@.with(LevelSetting::MinReplayValue(min_replay_value as int)),
    {
        let mut search = self;
        search.min_replay_value = Some(min_replay_value);
        search
    }

    /// Limits results to levels with at most this replay value.
    pub fn max_replay_value(self, max_replay_value: Stat) -> (search: Self)
        ensures
            search@ == self@.with(LevelSetting::MaxReplayValue(max_replay_value as int)),
    {
        let mut search = self;
        search.max_replay_value = Some(max_replay_value);
        search
    }

    /// Limits results to levels with at least this hidden-gem score.
    pub fn min_hidden_gem(self, min_hidden_gem: Stat) -> (search: Self)
        ensures
            search@ == self@.with(LevelSetting::MinHiddenGem(min_hidden_gem as int)),
    {
        let mut search = self;
        search.min_hidden_gem = Some(min_hidden_gem);
        search
    }

    /// Limits results to levels with at most this hidden-gem score.
    pub fn max_hidden_gem(self, max_hidden_gem: Stat) -> (search: Self)
        ensures
            search@ == self@.with(LevelSetting::MaxHiddenGem(max_hidden_gem as int)),
    {
        let mut search = self;
        search.max_hidden_gem = Some(max_hidden_gem);
        search
    }

    /// Limits results to levels with exactly this many difficulty diamonds.
    pub fn diamonds(self, diamonds: u8) -> (search: Self)
        ensures
            search@ == self@.with(LevelSetting::Diamonds(diamonds as int)),
    {
        let mut search = self;
        search.diamonds = Some(diamonds);
        search
    }

    /// Limits results to levels with at least this many difficulty diamonds.
    pub fn min_diamonds(self, min_diamonds: Stat) -> (search: Self)
        ensures
            search@ == self@.with(LevelSetting::MinDiamonds(min_diamonds as int)),
    {
        let mut search = self;
        search.min_diamonds = Some(min_diamonds);
        search
    }

    /// Limits results to levels with at most this many difficulty diamonds.
    pub fn max_diamonds(self, max_diamonds: Stat) -> (search: Self)
        ensures
            search@ == self@.with(LevelSetting::MaxDiamonds(max_diamonds as int)),
    {
        let mut search = self;
        search.max_diamonds = Some(max_diamonds);
        search
    }

    /// Limits results to levels published no less than this many seconds ago.
    pub fn min_seconds_ago(self, min_seconds_ago: Stat) -> (search: Self)
        ensures
            search@ == self@.with(LevelSetting::MinSecondsAgo(min_seconds_ago as int)),
    {
        let mut search = self;
        search.min_seconds_ago = Some(min_seconds_ago);
        search
    }

    /// Limits results to levels published no more than this many seconds ago.
    pub fn max_seconds_ago(self, max_seconds_ago: Stat) -> (search: Self)
        ensures
            search@ == self@.with(LevelSetting::MaxSecondsAgo(max_seconds_ago as int)),
    {
        let mut search = self;
        search.max_seconds_ago = Some(max_seconds_ago);
        search
    }

    /// Continues after the result with this id, so that pages do not repeat
    /// results on ties.
    pub fn tiebreaker_item_id(self, tiebreaker_item_id: &str) -> (search: Self)
        ensures
            search@ == self@.with(LevelSetting::TiebreakerItemId(tiebreaker_item_id@)),
    {
        let mut search = self;
        search.tiebreaker_item_id = Some(String::from_str(tiebreaker_item_id));
        search
    }

    /// Returns levels created at or after this date.
    pub fn min_created_at(self, min_created_at: &str) -> (search: Self)
        ensures
            search@ == self@.with(LevelSetting::MinCreatedAt(min_created_at@)),
    {
        let mut search = self;
        search.min_created_at = Some(String::from_str(min_created_at));
        search
    }

    /// Returns levels created at or before this date.
    pub fn max_created_at(self, max_created_at: &str) -> (search: Self)
        ensures
            search@ == self@.with(LevelSetting::MaxCreatedAt(max_created_at@)),
    {
        let mut search = self;
        search.max_created_at = Some(String::from_str(max_created_at));
        search
    }

    /// Asks for your interactions with each level.
    pub fn include_my_interactions(self, include_my_interactions: bool) -> (search: Self)
        ensures
            search@ == self@.with(LevelSetting::IncludeMyInteractions(include_my_interactions)),
    {
        let mut search = self;
        search.include_my_interactions = Some(include_my_interactions);
        search
    }

    /// Asks for levels that can only be played on beta clients too.
    pub fn include_beta(self, include_beta: bool) -> (search: Self)
        ensures
            search@ == self@.with(LevelSetting::IncludeBeta(include_beta)),
    {
        let mut search = self;
        search.include_beta = Some(include_beta);
        search
    }

    /// The query string of the search, without a leading `?`.
    pub fn to_string(&self) -> (query: String)
        ensures
            query@ == self@.query(),
    {
        let mut w = Writer::new(Ghost(self@.params()));
        w.list("userIds", &self.user_ids);
        w.list("levelIds", &self.level_ids);
        match &self.sort {
            Some(sort) => {
                let value = sort.to_string();
                w.text("sort", value.as_str());
            },
            None => w.skip(),
        }
        w.small("limit", self.limit);
        w.optional_text("tags", &self.tags);
        w.flag("tower", self.tower);
        w.flag("marketing", self.marketing);
        w.flag("dailyBuild", self.daily_build);
        w.flag("includeStats", self.include_stats);
        w.flag("includeRecords", self.include_records);
        w.flag("includeAliases", self.include_aliases);
        w.stat("minPlayTime", self.min_play_time);
        w.stat("maxPlayTime", self.max_play_time);
        w.stat("minExposureBucks", self.min_exposure_bucks);
        w.stat("maxExposureBucks", self.max_exposure_bucks);
        w.stat("minReplayValue", self.min_replay_value);
        w.stat("maxReplayValue", self.max_replay_value);
        w.stat("minHiddenGem", self.min_hidden_gem);
        w.stat("maxHiddenGem", self.max_hidden_gem);
        w.small("diamonds", self.diamonds);
        w.stat("minDiamonds", self.min_diamonds);
        w.stat("maxDiamonds", self.max_diamonds);
        w.stat("minSecondsAgo", self.min_seconds_ago);
        w.stat("maxSecondsAgo", self.max_seconds_ago);
        w.optional_text("minCreatedAt", &self.min_created_at);
        w.optional_text("maxCreatedAt", &self.max_created_at);
        w.flag("includeMyInteractions", self.include_my_interactions);
        w.flag("includeBeta", self.include_beta);
        w.optional_text("tiebreakerItemId", &self.tiebreaker_item_id);
        w.finish()
    }
}

/// A search without any parameter has the empty query string.
pub proof fn level_query_of_empty_search()
    ensures
        LevelSearchView::empty().query() == Seq::<char>::empty(),
{
    lemma_query_of_nothing(LevelSearchView::empty().params());
}

/// Every parameter that a search holds stands in its query string as one
/// whole `name=value` parameter.
pub proof fn level_query_holds_each_parameter(search: LevelSearchView, position: int)
    requires
        0 <= position < 29,
        search.param(position) is Some,
    ensures
        has_segment(search.query(), search.param(position)->0),
{
    lemma_param_is_segment(search.params(), position);
}

/// After a limit has been set, the query string holds `limit=` and the limit
/// in decimal as one whole parameter.
pub proof fn level_query_holds_limit(search: LevelSearchView, limit: int)
    ensures
        has_segment(
            search.with(LevelSetting::Limit(limit)).query(),
            pair("limit"@, decimal(limit)),
        ),
{
    let set = search.with(LevelSetting::Limit(limit));
    level_query_holds_each_parameter(set, LevelSetting::Limit(limit).position());
}

/// After user ids have been set, the query string starts with `userIds=` and
/// the ids in the order given, separated by commas, as one whole parameter.
pub proof fn level_query_starts_with_user_ids(search: LevelSearchView, ids: Seq<Seq<char>>)
    ensures
        segment_at(
            search.with(LevelSetting::UserIds(ids)).query(),
            0,
            pair("userIds"@, joined(ids, ',')),
        ),
{
    let params = search.with(LevelSetting::UserIds(ids)).params();
    lemma_param_is_segment(params, 0);
    assert(params.take(0) =~= Seq::empty());
}

/// After level ids have been set, the query string holds `levelIds=` and the
/// ids in the order given, separated by commas, as one whole parameter: at
/// the front where the search holds no user ids, and else right behind them.
pub proof fn level_query_holds_level_ids(search: LevelSearchView, ids: Seq<Seq<char>>)
    ensures
        segment_at(
            search.with(LevelSetting::LevelIds(ids)).query(),
            match search.user_ids {
                Some(users) => (pair("userIds"@, joined(users, ',')).len() + 1) as int,
                None => 0,
            },
            pair("levelIds"@, joined(ids, ',')),
        ),
{
    let params = search.with(LevelSetting::LevelIds(ids)).params();
    lemma_param_is_segment(params, 1);
    lemma_present_step(params, 0);
    assert(params.take(0) =~= Seq::empty());
    assert(present(params.take(0)) =~= Seq::empty());
    match search.user_ids {
        Some(users) => {
            lemma_joined_push(Seq::empty(), pair("userIds"@, joined(users, ',')), '&');
        },
        None => {},
    }
}

/// After a tiebreaker has been set, the query string ends with
/// `tiebreakerItemId=` and the id as one whole parameter, whatever else the
/// search holds.
pub proof fn level_query_ends_with_tiebreaker(search: LevelSearchView, id: Seq<char>)
    ensures
        ({
            let query = search.with(LevelSetting::TiebreakerItemId(id)).query();
            let part = pair("tiebreakerItemId"@, id);
            segment_at(query, query.len() - part.len(), part)
        }),
{
    let params = search.with(LevelSetting::TiebreakerItemId(id)).params();
    lemma_param_is_segment(params, 28);
    assert(params.take(29) =~= params);
}

/// Setting two different parameters gives the same search in either order,
/// and so the same query string.
pub proof fn level_settings_commute(
    search: LevelSearchView,
    first: LevelSetting,
    second: LevelSetting,
)
    requires
        first.position() != second.position(),
    ensures
        search.with(first).with(second) == search.with(second).with(first),
        search.with(first).with(second).query() == search.with(second).with(first).query(),
{
}

/// Setting a parameter twice keeps the later value only.
pub proof fn level_later_setting_wins(
    search: LevelSearchView,
    first: LevelSetting,
    second: LevelSetting,
)
    requires
        first.position() == second.position(),
    ensures
        search.with(first).with(second) == search.with(second),
{
}

/// The query string depends on nothing but the parameters that a search
/// holds: two searches that hold the same are written the same, and so is
/// one search written twice.
pub proof fn level_query_is_deterministic(
    first: LevelSearch,
    second: LevelSearch,
    first_query: String,
    second_query: String,
)
    requires
        first@ == second@,
        first_query@ == first@.query(),
        second_query@ == second@.query(),
    ensures
        first_query@ == second_query@,
{
}

} // verus!
