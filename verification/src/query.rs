//! Search queries: validating builders for the parameters of a player or level
//! search, and their encoding into one canonical query string.

pub mod encode;
pub mod level;
pub mod limit;
pub mod player;
pub mod sort;

pub use self::limit::LimitError;
pub use self::sort::{
    LevelSearchSort, LevelSortProperty, PlayerSearchSort, PlayerSortProperty, Sort, SortProperty,
    SortView,
};
pub use self::player::{PlayerSearch, PlayerSearchView, PlayerSetting};
pub use self::level::{LevelSearch, LevelSearchView, LevelSetting};
