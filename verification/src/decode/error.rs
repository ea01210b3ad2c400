//! What can be wrong with an answer, and where.

use crate::text::{decimal, push_nat};
use vstd::prelude::*;
use vstd::string::StringExecFns;

verus! {

/// Why an answer could not be decoded.
///
/// A path names a value inside the document: the keys on the way to it are
/// separated by `.`, and an index into a list stands in square brackets, as
/// in `data[3].stats.Shoes`. The document itself has the empty path.
#[derive(Debug, Clone, PartialEq, Eq)]
pub enum DecodeError {
    /// The text is not a JSON document. The line and the column, counted
    /// from one, are where the parser gave up.
    Syntax { line: usize, column: usize },
    /// A field that has to be there is absent.
    MissingField { path: String },
    /// A value has another JSON type than its field calls for, or is a
    /// number that its field cannot hold.
    WrongType { path: String },
}

/// What a [`DecodeError`] holds.
pub enum DecodeErrorView {
    Syntax { line: usize, column: usize },
    MissingField { path: Seq<char> },
    WrongType { path: Seq<char> },
}

impl DeepView for DecodeError {
    type V = DecodeErrorView;

    open spec fn deep_view(&self) -> DecodeErrorView {
        match self {
            DecodeError::Syntax { line, column } => DecodeErrorView::Syntax {
                line: *line,
                column: *column,
            },
            DecodeError::MissingField { path } => DecodeErrorView::MissingField { path: path@ },
            DecodeError::WrongType { path } => DecodeErrorView::WrongType { path: path@ },
        }
    }
}

/// The result of a decoder, with what it holds in place of the records.
pub open spec fn outcome<T: DeepView>(result: Result<T, DecodeError>) -> Result<
    T::V,
    DecodeErrorView,
> {
    match result {
        Ok(value) => Ok(value.deep_view()),
        Err(error) => Err(error.deep_view()),
    }
}

/// The path of a field of the value at `parent`.
pub open spec fn field_path(parent: Seq<char>, name: Seq<char>) -> Seq<char> {
    if parent.len() == 0 {
        name
    } else {
        parent + seq!['.'] + name
    }
}

/// The path of an item of the list at `parent`.
pub open spec fn index_path(parent: Seq<char>, index: int) -> Seq<char> {
    parent + seq!['['] + decimal(index) + seq![']']
}

/// The path of a field of the value at `parent`.
pub fn field_path_string(parent: &str, name: &str) -> (path: String)
    ensures
        path@ == field_path(parent@, name@),
{
    let mut path = String::from_str(parent);
    if !parent.is_empty() {
        path.append(".");
        proof {
            reveal_strlit(".");
            assert("."@ =~= seq!['.']);
        }
    } else {
        assert(path@ + name@ =~= name@);
    }
    path.append(name);
    path
}

/// The path of an item of the list at `parent`.
pub fn index_path_string(parent: &str, index: usize) -> (path: String)
    ensures
        path@ == index_path(parent@, index as int),
{
    let mut path = String::from_str(parent);
    path.append("[");
    push_nat(&mut path, index as u64);
    path.append("]");
    proof {
        reveal_strlit("[");
        reveal_strlit("]");
        assert("["@ =~= seq!['[']);
        assert("]"@ =~= seq![']']);
    }
    path
}

impl DecodeErrorView {
    /// What `to_string` writes for an error.
    pub open spec fn message(self) -> Seq<char> {
        match self {
            DecodeErrorView::Syntax { line, column } => "invalid JSON at line "@ + decimal(
                line as int,
            ) + " column "@ + decimal(column as int),
            DecodeErrorView::MissingField { path } => "missing field `"@ + path + "`"@,
            DecodeErrorView::WrongType { path } => "wrong type for `"@ + path + "`"@,
        }
    }
}

impl DecodeError {
    /// A message that says what is wrong and where.
    pub fn to_string(&self) -> (message: String)
        ensures
            message@ == self.deep_view().message(),
    {
        match self {
            DecodeError::Syntax { line, column } => {
                let mut out = String::from_str("invalid JSON at line ");
                push_nat(&mut out, *line as u64);
                out.append(" column ");
                push_nat(&mut out, *column as u64);
                out
            },
            DecodeError::MissingField { path } => {
                let mut out = String::from_str("missing field `");
                out.append(path.as_str());
                out.append("`");
                out
            },
            DecodeError::WrongType { path } => {
                let mut out = String::from_str("wrong type for `");
                out.append(path.as_str());
                out.append("`");
                out
            },
        }
    }
}

} // verus!
