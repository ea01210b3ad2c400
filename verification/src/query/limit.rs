//! The error of a setter whose argument is over a hard limit of the API.

use crate::text::{decimal, push_nat};
use vstd::prelude::*;
use vstd::string::StringExecFns;

verus! {

/// A value, or an amount of items, that is larger than the maximum the API
/// accepts.
#[derive(Debug, Clone, Copy, PartialEq, Eq)]
pub struct LimitError {
    /// The value or the amount of items that was given.
    pub value: usize,
    /// The largest value or amount that is accepted.
    pub maximum: usize,
}

impl LimitError {
    /// The error for `value`, which is over `maximum`.
    pub fn new(value: usize, maximum: usize) -> (e: Self)
        ensures
            e == (LimitError { value, maximum }),
    {
        Self { value, maximum }
    }

    /// What `to_string` writes for an error with these numbers.
    pub open spec fn message(self) -> Seq<char> {
        "value/amount of items of "@ + decimal(self.value as int) + " is larger than maximum "@
            + decimal(self.maximum as int)
    }

    /// The message of this error.
    pub fn to_string(&self) -> (r: String)
        ensures
            r@ == self.message(),
    {
        let mut out = String::from_str("value/amount of items of ");
        push_nat(&mut out, self.value as u64);
        out.append(" is larger than maximum ");
        push_nat(&mut out, self.maximum as u64);
        out
    }
}

} // verus!
