//! The paths of the endpoints, relative to the URL of the API.

use crate::query::{LevelSearch, PlayerSearch};
use vstd::prelude::*;
use vstd::string::StringExecFns;

verus! {

/// The path that answers with the record of the delegation key in use.
pub fn key_info_path() -> (path: String)
    ensures
        path@ == "delegation/keys/@this"@,
{
    String::from_str("delegation/keys/@this")
}

/// The path of a player search: the endpoint, `?` and the query string.
pub fn players_path(query: &PlayerSearch) -> (path: String)
    ensures
        path@ == "levelhead/players?"@ + query@.query(),
{
    let mut path = String::from_str("levelhead/players?");
    let encoded = query.to_string();
    path.append(encoded.as_str());
    path
}

/// The path of a level search: the endpoint, `?` and the query string.
pub fn levels_path(query: &LevelSearch) -> (path: String)
    ensures
        path@ == "levelhead/levels?"@ + query@.query(),
{
    let mut path = String::from_str("levelhead/levels?");
    let encoded = query.to_string();
    path.append(encoded.as_str());
    path
}

/// The path that answers with the players of the given user ids, which are
/// passed through as they are: separate several by commas.
pub fn players_by_ids_path(user_ids: &str) -> (path: String)
    ensures
        path@ == "levelhead/players?userIds="@ + user_ids@,
{
    let mut path = String::from_str("levelhead/players?userIds=");
    path.append(user_ids);
    path
}

} // verus!
