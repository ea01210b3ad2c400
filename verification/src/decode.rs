//! Decoding of the API's answers: from a JSON document to typed records, with
//! the defaults and the wire names that the API's format calls for.

pub mod error;
pub mod field;
pub mod level;
pub mod player;

pub use self::error::{DecodeError, DecodeErrorView};
pub use self::level::{decode_levels, levels_response};
pub use self::player::{
    decode_key_info, decode_player, decode_players, key_info_response, player_response,
    players_response,
};
