//! What a search is sorted on, and in which direction.

use vstd::prelude::*;
use vstd::string::StringExecFns;

verus! {

/// A property that results can be sorted on, with the name the API knows it
/// by.
pub trait SortProperty {
    /// The name of the property in a query string.
    spec fn wire(&self) -> Seq<char>;

    /// The name of the property in a query string.
    fn wire_name(&self) -> (r: &'static str)
        ensures
            r@ == self.wire(),
    ;
}

/// A property to sort on together with a direction. The API sorts from
/// largest to smallest unless `ascending` is set.
#[derive(Debug, Clone, PartialEq, Eq)]
pub struct Sort<P> {
    ascending: bool,
    property: P,
}

/// What a [`Sort`] holds.
pub struct SortView<P> {
    pub ascending: bool,
    pub property: P,
}

impl<P> View for Sort<P> {
    type V = SortView<P>;

    closed spec fn view(&self) -> SortView<P> {
        SortView { ascending: self.ascending, property: self.property }
    }
}

impl<P: SortProperty> SortView<P> {
    /// The value of the `sort` parameter: a `-` for ascending order, then the
    /// property's name.
    pub open spec fn text(self) -> Seq<char> {
        if self.ascending {
            seq!['-'] + self.property.wire()
        } else {
            self.property.wire()
        }
    }
}

impl<P> Sort<P> {
    /// A sort on `property`, from smallest to largest if `ascending`.
    pub fn new(property: P, ascending: bool) -> (s: Self)
        ensures
            s@ == (SortView { ascending, property }),
    {
        Self { property, ascending }
    }
}

impl<P: SortProperty> Sort<P> {
    /// The value of the `sort` parameter for this sort.
    pub fn to_string(&self) -> (r: String)
        ensures
            r@ == self@.text(),
    {
        let mut out = String::new();
        if self.ascending {
            out.append("-");
            proof {
                reveal_strlit("-");
            }
        }
        out.append(self.property.wire_name());
        assert(out@ =~= self@.text());
        out
    }
}

/// The properties a player search can be sorted on.
#[derive(Debug, Clone, Copy, PartialEq, Eq)]
pub enum PlayerSortProperty {
    CreatedAt,
    UpdatedAt,
    Subscribers,
    PlayTime,
    Plays,
    Trophies,
    Shoes,
    Crowns,
    Published,
}

impl SortProperty for PlayerSortProperty {
    open spec fn wire(&self) -> Seq<char> {
        match self {
            PlayerSortProperty::CreatedAt => "createdAt"@,
            PlayerSortProperty::UpdatedAt => "updatedAt"@,
            PlayerSortProperty::Subscribers => "Subscribers"@,
            PlayerSortProperty::PlayTime => "PlayTime"@,
            PlayerSortProperty::Plays => "Plays"@,
            PlayerSortProperty::Trophies => "Trophies"@,
            PlayerSortProperty::Shoes => "Shoes"@,
            PlayerSortProperty::Crowns => "Crowns"@,
            PlayerSortProperty::Published => "Published"@,
        }
    }

    fn wire_name(&self) -> (r: &'static str) {
        match self {
            PlayerSortProperty::CreatedAt => "createdAt",
            PlayerSortProperty::UpdatedAt => "updatedAt",
            PlayerSortProperty::Subscribers => "Subscribers",
            PlayerSortProperty::PlayTime => "PlayTime",
            PlayerSortProperty::Plays => "Plays",
            PlayerSortProperty::Trophies => "Trophies",
            PlayerSortProperty::Shoes => "Shoes",
            PlayerSortProperty::Crowns => "Crowns",
            PlayerSortProperty::Published => "Published",
        }
    }
}

impl PlayerSortProperty {
    /// The name of the property in a query string.
    pub fn to_string(&self) -> (r: String)
        ensures
            r@ == self.wire(),
    {
        String::from_str(self.wire_name())
    }
}

pub type PlayerSearchSort = Sort<PlayerSortProperty>;

/// The properties a level search can be sorted on.
#[derive(Debug, Clone, Copy, PartialEq, Eq)]
pub enum LevelSortProperty {
    CreatedAt,
    PlayTime,
    ReplayValue,
    ExposureBucks,
    /// Synonym of `ExposureBucks`.
    QAScore,
    /// Synonymous with the "Featured" list in-game. Is the default and can be
    /// used for Tower levels.
    HiddenGem,
}

impl SortProperty for LevelSortProperty {
    open spec fn wire(&self) -> Seq<char> {
        match self {
            LevelSortProperty::CreatedAt => "createdAt"@,
            LevelSortProperty::PlayTime => "PlayTime"@,
            LevelSortProperty::ReplayValue => "ReplayValue"@,
            LevelSortProperty::ExposureBucks => "ExposureBucks"@,
            LevelSortProperty::QAScore => "QAScore"@,
            LevelSortProperty::HiddenGem => "HiddenGem"@,
        }
    }

    fn wire_name(&self) -> (r: &'static str) {
        match self {
            LevelSortProperty::CreatedAt => "createdAt",
            LevelSortProperty::PlayTime => "PlayTime",
            LevelSortProperty::ReplayValue => "ReplayValue",
            LevelSortProperty::ExposureBucks => "ExposureBucks",
            LevelSortProperty::QAScore => "QAScore",
            LevelSortProperty::HiddenGem => "HiddenGem",
        }
    }
}

impl LevelSortProperty {
    /// The name of the property in a query string.
    pub fn to_string(&self) -> (r: String)
        ensures
            r@ == self.wire(),
    {
        String::from_str(self.wire_name())
    }
}

pub type LevelSearchSort = Sort<LevelSortProperty>;

} // verus!
