//! The parameters of a player search.

use crate::query::encode::{
    flag_param, has_segment, joined, lemma_param_is_segment, lemma_query_of_nothing, list_param,
    number_param, pair, query_string, segment_at, some_int_i32, some_int_u8, text_param, Writer,
};
use crate::query::limit::LimitError;
use crate::query::sort::{PlayerSearchSort, PlayerSortProperty, Sort, SortView};
use crate::text::decimal;
use crate::types::Stat;
use vstd::prelude::*;
use vstd::string::StringExecFns;

verus! {

/// A search for players. Every parameter is optional: one that is absent
/// neither filters, sorts nor pages.
#[derive(Debug, Clone, PartialEq, Eq)]
pub struct PlayerSearch {
    /// The parameter you want to sort on. By default it returns results from
    /// largest to smallest.
    pub sort: Option<PlayerSearchSort>,
    /// Maximum number of results to return. There is a hard limit of
    /// [`Self::MAX_LIMIT`]: page to obtain additional results.
    pub limit: Option<u8>,
    /// Up to [`Self::MAX_USERS`] user ids. If set, only these players are
    /// returned.
    pub user_ids: Option<Vec<String>>,
    /// Limit results to those with at most this many subscribers.
    pub max_subscribers: Option<Stat>,
    /// Limit results to those with at least this many subscribers.
    pub min_subscribers: Option<Stat>,
    /// Limit results to those with at most this many seconds of playtime.
    pub max_play_time: Option<Stat>,
    /// Limit results to those with at least this many seconds of playtime.
    pub min_play_time: Option<Stat>,
    /// Return profiles created at or after this date. Must be parsable by
    /// Javascript `new Date()`.
    pub min_created_at: Option<String>,
    /// Return profiles created at or before this date. Must be parsable by
    /// Javascript `new Date()`.
    pub max_created_at: Option<String>,
    /// Return profiles updated at or after this date. Must be parsable by
    /// Javascript `new Date()`.
    pub min_updated_at: Option<String>,
    /// Return profiles updated at or before this date. Must be parsable by
    /// Javascript `new Date()`.
    pub max_updated_at: Option<String>,
    /// If true, will add the alias field to the profile. Only set this if you
    /// will be using all returned aliases.
    pub include_aliases: Option<bool>,
    /// If true, information about your interactions with returned users (e.g.
    /// "following") will be included in the response.
    pub include_my_interactions: Option<bool>,
    /// If sorting based on a value that can contain ties, subsequent pages
    /// will contain repeated results on ties. Results are secondarily sorted
    /// on the id: give the id of the last result of the prior page here to
    /// page even when there are ties.
    pub tiebreaker_item_id: Option<String>,
}

/// What a [`PlayerSearch`] holds.
pub struct PlayerSearchView {
    pub sort: Option<SortView<PlayerSortProperty>>,
    pub limit: Option<int>,
    pub user_ids: Option<Seq<Seq<char>>>,
    pub max_subscribers: Option<int>,
    pub min_subscribers: Option<int>,
    pub max_play_time: Option<int>,
    pub min_play_time: Option<int>,
    pub min_created_at: Option<Seq<char>>,
    pub max_created_at: Option<Seq<char>>,
    pub min_updated_at: Option<Seq<char>>,
    pub max_updated_at: Option<Seq<char>>,
    pub include_aliases: Option<bool>,
    pub include_my_interactions: Option<bool>,
    pub tiebreaker_item_id: Option<Seq<char>>,
}

/// One parameter of a player search together with a value for it.
pub enum PlayerSetting {
    UserIds(Seq<Seq<char>>),
    Sort(SortView<PlayerSortProperty>),
    Limit(int),
    MaxSubscribers(int),
    MinSubscribers(int),
    MaxPlayTime(int),
    MinPlayTime(int),
    MinCreatedAt(Seq<char>),
    MaxCreatedAt(Seq<char>),
    MinUpdatedAt(Seq<char>),
    MaxUpdatedAt(Seq<char>),
    IncludeAliases(bool),
    IncludeMyInteractions(bool),
    TiebreakerItemId(Seq<char>),
}

impl PlayerSetting {
    /// The place of the parameter in the query string, counted from zero.
    pub open spec fn position(self) -> int {
        match self {
            PlayerSetting::UserIds(_) => 0,
            PlayerSetting::Sort(_) => 1,
            PlayerSetting::Limit(_) => 2,
            PlayerSetting::MaxSubscribers(_) => 3,
            PlayerSetting::MinSubscribers(_) => 4,
            PlayerSetting::MaxPlayTime(_) => 5,
            PlayerSetting::MinPlayTime(_) => 6,
            PlayerSetting::MinCreatedAt(_) => 7,
            PlayerSetting::MaxCreatedAt(_) => 8,
            PlayerSetting::MinUpdatedAt(_) => 9,
            PlayerSetting::MaxUpdatedAt(_) => 10,
            PlayerSetting::IncludeAliases(_) => 11,
            PlayerSetting::IncludeMyInteractions(_) => 12,
            PlayerSetting::TiebreakerItemId(_) => 13,
        }
    }
}

impl PlayerSearchView {
    /// The search without any parameter.
    pub open spec fn empty() -> PlayerSearchView {
        PlayerSearchView {
            sort: None,
            limit: None,
            user_ids: None,
            max_subscribers: None,
            min_subscribers: None,
            max_play_time: None,
            min_play_time: None,
            min_created_at: None,
            max_created_at: None,
            min_updated_at: None,
            max_updated_at: None,
            include_aliases: None,
            include_my_interactions: None,
            tiebreaker_item_id: None,
        }
    }

    /// The search with one parameter set, whatever it held before; the others
    /// are kept.
    pub open spec fn with(self, setting: PlayerSetting) -> PlayerSearchView {
        match setting {
            PlayerSetting::UserIds(ids) => PlayerSearchView { user_ids: Some(ids), ..self },
            PlayerSetting::Sort(sort) => PlayerSearchView { sort: Some(sort), ..self },
            PlayerSetting::Limit(n) => PlayerSearchView { limit: Some(n), ..self },
            PlayerSetting::MaxSubscribers(n) => PlayerSearchView {
                max_subscribers: Some(n),
                ..self
            },
            PlayerSetting::MinSubscribers(n) => PlayerSearchView {
                min_subscribers: Some(n),
                ..self
            },
            PlayerSetting::MaxPlayTime(n) => PlayerSearchView { max_play_time: Some(n), ..self },
            PlayerSetting::MinPlayTime(n) => PlayerSearchView { min_play_time: Some(n), ..self },
            PlayerSetting::MinCreatedAt(t) => PlayerSearchView { min_created_at: Some(t), ..self },
            PlayerSetting::MaxCreatedAt(t) => PlayerSearchView { max_created_at: Some(t), ..self },
            PlayerSetting::MinUpdatedAt(t) => PlayerSearchView { min_updated_at: Some(t), ..self },
            PlayerSetting::MaxUpdatedAt(t) => PlayerSearchView { max_updated_at: Some(t), ..self },
            PlayerSetting::IncludeAliases(b) => PlayerSearchView {
                include_aliases: Some(b),
                ..self
            },
            PlayerSetting::IncludeMyInteractions(b) => PlayerSearchView {
                include_my_interactions: Some(b),
                ..self
            },
            PlayerSetting::TiebreakerItemId(t) => PlayerSearchView {
                tiebreaker_item_id: Some(t),
                ..self
            },
        }
    }

    /// The parameter at a place of the query string, as it is written there,
    /// or `None` where the search does not hold it. The user ids come first
    /// and the tiebreaker comes last.
    pub open spec fn param(self, position: int) -> Option<Seq<char>> {
        if position == 0 {
            list_param("userIds"@, self.user_ids)
        } else if position == 1 {
            text_param(
                "sort"@,
                match self.sort {
                    Some(sort) => Some(sort.text()),
                    None => None,
                },
            )
        } else if position == 2 {
            number_param("limit"@, self.limit)
        } else if position == 3 {
            number_param("maxSubscribers"@, self.max_subscribers)
        } else if position == 4 {
            number_param("minSubscribers"@, self.min_subscribers)
        } else if position == 5 {
            number_param("maxPlayTime"@, self.max_play_time)
        } else if position == 6 {
            number_param("minPlayTime"@, self.min_play_time)
        } else if position == 7 {
            text_param("minCreatedAt"@, self.min_created_at)
        } else if position == 8 {
            text_param("maxCreatedAt"@, self.max_created_at)
        } else if position == 9 {
            text_param("minUpdatedAt"@, self.min_updated_at)
        } else if position == 10 {
            text_param("maxUpdatedAt"@, self.max_updated_at)
        } else if position == 11 {
            flag_param("includeAliases"@, self.include_aliases)
        } else if position == 12 {
            flag_param("includeMyInteractions"@, self.include_my_interactions)
        } else {
            text_param("tiebreakerItemId"@, self.tiebreaker_item_id)
        }
    }

    /// All parameters in the order of the query string.
    pub open spec fn params(self) -> Seq<Option<Seq<char>>> {
        Seq::new(14, |position: int| self.param(position))
    }

    /// The query string of the search.
    pub open spec fn query(self) -> Seq<char> {
        query_string(self.params())
    }
}

impl View for PlayerSearch {
    type V = PlayerSearchView;

    open spec fn view(&self) -> PlayerSearchView {
        PlayerSearchView {
            sort: match self.sort {
                Some(sort) => Some(sort@),
                None => None,
            },
            limit: some_int_u8(self.limit),
            user_ids: self.user_ids.deep_view(),
            max_subscribers: some_int_i32(self.max_subscribers),
            min_subscribers: some_int_i32(self.min_subscribers),
            max_play_time: some_int_i32(self.max_play_time),
            min_play_time: some_int_i32(self.min_play_time),
            min_created_at: self.min_created_at.deep_view(),
            max_created_at: self.max_created_at.deep_view(),
            min_updated_at: self.min_updated_at.deep_view(),
            max_updated_at: self.max_updated_at.deep_view(),
            include_aliases: self.include_aliases,
            include_my_interactions: self.include_my_interactions,
            tiebreaker_item_id: self.tiebreaker_item_id.deep_view(),
        }
    }
}

impl Default for PlayerSearch {
    fn default() -> (search: Self)
        ensures
            search@ == PlayerSearchView::empty(),
    {
        PlayerSearch {
            sort: None,
            limit: None,
            user_ids: None,
            max_subscribers: None,
            min_subscribers: None,
            max_play_time: None,
            min_play_time: None,
            min_created_at: None,
            max_created_at: None,
            min_updated_at: None,
            max_updated_at: None,
            include_aliases: None,
            include_my_interactions: None,
            tiebreaker_item_id: None,
        }
    }
}

/// Copies a list of string slices into owned strings, in the same order.
pub(crate) fn owned_strings(items: &Vec<&str>) -> (owned: Vec<String>)
    ensures
        owned.deep_view() == items.deep_view(),
{
    let mut owned: Vec<String> = Vec::new();
    let mut i: usize = 0;
    while i < items.len()
        invariant
            i <= items.len(),
            owned.len() == i,
            forall|j: int| 0 <= j < i ==> owned[j]@ == items[j]@,
        decreases items.len() - i,
    {
        owned.push(String::from_str(items[i]));
        i = i + 1;
    }
    assert(owned.deep_view() =~= items.deep_view());
    owned
}

impl PlayerSearch {
    /// The largest `limit` that is accepted.
    pub const MAX_LIMIT: usize = 64;

    /// The largest amount of user ids that is accepted.
    pub const MAX_USERS: usize = 16;

    /// A search without any parameter.
    pub fn new() -> (search: Self)
        ensures
            search@ == PlayerSearchView::empty(),
    {
        Self::default()
    }

    /// Sorts the results on a property, from smallest to largest if
    /// `ascending`.
    pub fn sort(self, property: PlayerSortProperty, ascending: bool) -> (search: Self)
        ensures
            search@ == self@.with(PlayerSetting::Sort(SortView { ascending, property })),
    {
        let mut search = self;
        search.sort = Some(Sort::new(property, ascending));
        search
    }

    /// Maximum number of results to return. Fails if `limit` is higher than
    /// [`Self::MAX_LIMIT`].
    pub fn limit(self, limit: u8) -> (result: Result<Self, LimitError>)
        ensures
            match result {
                Ok(search) => {
                    &&& limit <= 64
                    &&& search@ == self@.with(PlayerSetting::Limit(limit as int))
                    &&& has_segment(search@.query(), pair("limit"@, decimal(limit as int)))
                },
                Err(e) => limit > 64 && e == (LimitError { value: limit as usize, maximum: 64 }),
            },
    {
        if limit as usize > Self::MAX_LIMIT {
            Err(LimitError::new(limit as usize, Self::MAX_LIMIT))
        } else {
            let mut search = self;
            search.limit = Some(limit);
            proof {
                player_query_holds_limit(self@, limit as int);
            }
            Ok(search)
        }
    }

    /// Limits results to these user ids, which replace any given before.
    /// Fails if there are more than [`Self::MAX_USERS`] of them.
    pub fn user_ids(self, user_ids: Vec<&str>) -> (result: Result<Self, LimitError>)
        ensures
            match result {
                Ok(search) => {
                    &&& user_ids.len() <= 16
                    &&& search@ == self@.with(PlayerSetting::UserIds(user_ids.deep_view()))
                    &&& segment_at(
                        search@.query(),
                        0,
                        pair("userIds"@, joined(user_ids.deep_view(), ',')),
                    )
                },
                Err(e) => user_ids.len() > 16 && e == (LimitError {
                    value: user_ids.len(),
                    maximum: 16,
                }),
            },
    {
        if user_ids.len() > Self::MAX_USERS {
            Err(LimitError::new(user_ids.len(), Self::MAX_USERS))
        } else {
            let mut search = self;
            search.user_ids = Some(owned_strings(&user_ids));
            proof {
                player_query_starts_with_user_ids(self@, user_ids.deep_view());
            }
            Ok(search)
        }
    }

    /// Limits results to those with at most this many subscribers.
    pub fn max_subscribers(self, max_subscribers: Stat) -> (search: Self)
        ensures
            search@ == self@.with(PlayerSetting::MaxSubscribers(max_subscribers as int)),
    {
        let mut search = self;
        search.max_subscribers = Some(max_subscribers);
        search
    }

    /// Limits results to those with at least this many subscribers.
    pub fn min_subscribers(self, min_subscribers: Stat) -> (search: Self)
        ensures
            search@ == self@.with(PlayerSetting::MinSubscribers(min_subscribers as int)),
    {
        let mut search = self;
        search.min_subscribers = Some(min_subscribers);
        search
    }

    /// Limits results to those with at most this many seconds of playtime.
    pub fn max_play_time(self, max_play_time: Stat) -> (search: Self)
        ensures
            search@ == self@.with(PlayerSetting::MaxPlayTime(max_play_time as int)),
    {
        let mut search = self;
        search.max_play_time = Some(max_play_time);
        search
    }

    /// Limits results to those with at least this many seconds of playtime.
    pub fn min_play_time(self, min_play_time: Stat) -> (search: Self)
        ensures
            search@ == self@.with(PlayerSetting::MinPlayTime(min_play_time as int)),
    {
        let mut search = self;
        search.min_play_time = Some(min_play_time);
        search
    }

    /// Returns profiles created at or after this date.
    pub fn min_created_at(self, min_created_at: &str) -> (search: Self)
        ensures
            search@ == self@.with(PlayerSetting::MinCreatedAt(min_created_at@)),
    {
        let mut search = self;
        search.min_created_at = Some(String::from_str(min_created_at));
        search
    }

    /// Returns profiles created at or before this date.
    pub fn max_created_at(self, max_created_at: &str) -> (search: Self)
        ensures
            search@ == self@.with(PlayerSetting::MaxCreatedAt(max_created_at@)),
    {
        let mut search = self;
        search.max_created_at = Some(String::from_str(max_created_at));
        search
    }

    /// Returns profiles updated at or after this date.
    pub fn min_updated_at(self, min_updated_at: &str) -> (search: Self)
        ensures
            search@ == self@.with(PlayerSetting::MinUpdatedAt(min_updated_at@)),
    {
        let mut search = self;
        search.min_updated_at = Some(String::from_str(min_updated_at));
        search
    }

    /// Returns profiles updated at or before this date.
    pub fn max_updated_at(self, max_updated_at: &str) -> (search: Self)
        ensures
            search@ == self@.with(PlayerSetting::MaxUpdatedAt(max_updated_at@)),
    {
        let mut search = self;
        search.max_updated_at = Some(String::from_str(max_updated_at));
        search
    }

    /// Asks for the alias of each player.
    pub fn include_aliases(self, include_aliases: bool) -> (search: Self)
        ensures
            search@ == self@.with(PlayerSetting::IncludeAliases(include_aliases)),
    {
        let mut search = self;
        search.include_aliases = Some(include_aliases);
        search
    }

    /// Asks for your interactions with each player.
    pub fn include_my_interactions(self, include_my_interactions: bool) -> (search: Self)
        ensures
            search@ == self@.with(PlayerSetting::IncludeMyInteractions(include_my_interactions)),
    {
        let mut search = self;
        search.include_my_interactions = Some(include_my_interactions);
        search
    }

    /// Continues after the result with this id, so that pages do not repeat
    /// results on ties.
    pub fn tiebreaker_item_id(self, tiebreaker_item_id: &str) -> (search: Self)
        ensures
            search@ == self@.with(PlayerSetting::TiebreakerItemId(tiebreaker_item_id@)),
    {
        let mut search = self;
        search.tiebreaker_item_id = Some(String::from_str(tiebreaker_item_id));
        search
    }

    /// The query string of the search, without a leading `?`.
    pub fn to_string(&self) -> (query: String)
        ensures
            query@ == self@.query(),
    {
        let mut w = Writer::new(Ghost(self@.params()));
        w.list("userIds", &self.user_ids);
        match &self.sort {
            Some(sort) => {
                let value = sort.to_string();
                w.text("sort", value.as_str());
            },
            None => w.skip(),
        }
        w.small("limit", self.limit);
        w.stat("maxSubscribers", self.max_subscribers);
        w.stat("minSubscribers", self.min_subscribers);
        w.stat("maxPlayTime", self.max_play_time);
        w.stat("minPlayTime", self.min_play_time);
        w.optional_text("minCreatedAt", &self.min_created_at);
        w.optional_text("maxCreatedAt", &self.max_created_at);
        w.optional_text("minUpdatedAt", &self.min_updated_at);
        w.optional_text("maxUpdatedAt", &self.max_updated_at);
        w.flag("includeAliases", self.include_aliases);
        w.flag("includeMyInteractions", self.include_my_interactions);
        w.optional_text("tiebreakerItemId", &self.tiebreaker_item_id);
        w.finish()
    }
}

/// A search without any parameter has the empty query string.
pub proof fn player_query_of_empty_search()
    ensures
        PlayerSearchView::empty().query() == Seq::<char>::empty(),
{
    lemma_query_of_nothing(PlayerSearchView::empty().params());
}

/// Every parameter that a search holds stands in its query string as one
/// whole `name=value` parameter.
pub proof fn player_query_holds_each_parameter(search: PlayerSearchView, position: int)
    requires
        0 <= position < 14,
        search.param(position) is Some,
    ensures
        has_segment(search.query(), search.param(position)->0),
{
    lemma_param_is_segment(search.params(), position);
}

/// After a limit has been set, the query string holds `limit=` and the limit
/// in decimal as one whole parameter.
pub proof fn player_query_holds_limit(search: PlayerSearchView, limit: int)
    ensures
        has_segment(
            search.with(PlayerSetting::Limit(limit)).query(),
            pair("limit"@, decimal(limit)),
        ),
{
    let set = search.with(PlayerSetting::Limit(limit));
    player_query_holds_each_parameter(set, PlayerSetting::Limit(limit).position());
}

/// After user ids have been set, the query string starts with `userIds=` and
/// the ids in the order given, separated by commas, as one whole parameter.
pub proof fn player_query_starts_with_user_ids(search: PlayerSearchView, ids: Seq<Seq<char>>)
    ensures
        segment_at(
            search.with(PlayerSetting::UserIds(ids)).query(),
            0,
            pair("userIds"@, joined(ids, ',')),
        ),
{
    let params = search.with(PlayerSetting::UserIds(ids)).params();
    lemma_param_is_segment(params, 0);
    assert(params.take(0) =~= Seq::empty());
}

/// After a tiebreaker has been set, the query string ends with
/// `tiebreakerItemId=` and the id as one whole parameter, whatever else the
/// search holds.
pub proof fn player_query_ends_with_tiebreaker(search: PlayerSearchView, id: Seq<char>)
    ensures
        ({
            let query = search.with(PlayerSetting::TiebreakerItemId(id)).query();
            let part = pair("tiebreakerItemId"@, id);
            segment_at(query, query.len() - part.len(), part)
        }),
{
    let params = search.with(PlayerSetting::TiebreakerItemId(id)).params();
    lemma_param_is_segment(params, 13);
    assert(params.take(14) =~= params);
}

/// Setting two different parameters gives the same search in either order,
/// and so the same query string.
pub proof fn player_settings_commute(
    search: PlayerSearchView,
    first: PlayerSetting,
    second: PlayerSetting,
)
    requires
        first.position() != second.position(),
    ensures
        search.with(first).with(second) == search.with(second).with(first),
        search.with(first).with(second).query() == search.with(second).with(first).query(),
{
}

/// Setting a parameter twice keeps the later value only.
pub proof fn player_later_setting_wins(
    search: PlayerSearchView,
    first: PlayerSetting,
    second: PlayerSetting,
)
    requires
        first.position() == second.position(),
    ensures
        search.with(first).with(second) == search.with(second),
{
}

/// The query string depends on nothing but the parameters that a search
/// holds: two searches that hold the same are written the same, and so is
/// one search written twice.
pub proof fn player_query_is_deterministic(
    first: PlayerSearch,
    second: PlayerSearch,
    first_query: String,
    second_query: String,
)
    requires
        first@ == second@,
        first_query@ == first@.query(),
        second_query@ == second@.query(),
    ensures
        first_query@ == second_query@,
{
}

} // verus!
