//! The fields of a JSON object, read one by one: each has a kind (counter,
//! flag, text, ...) and a rule for what its absence means.

use crate::decode::error::{field_path, field_path_string, DecodeError, DecodeErrorView, outcome};
use crate::json::{items_view, lemma_array_view, members_view, Json, JsonView};
use crate::text::{decimal, integer_value, lemma_decimal_round_trip, parse_integer};
use vstd::prelude::*;
use vstd::string::StringExecFns;

verus! {

/// The value of the first member with the key `name`, from the member at
/// `start` on.
pub open spec fn lookup_from(
    fields: Seq<(Seq<char>, JsonView)>,
    name: Seq<char>,
    start: int,
) -> Option<JsonView>
    decreases fields.len() - start,
{
    if start < 0 || start >= fields.len() {
        None
    } else if fields[start].0 == name {
        Some(fields[start].1)
    } else {
        lookup_from(fields, name, start + 1)
    }
}

/// The value of the first member with the key `name`.
pub open spec fn lookup(fields: Seq<(Seq<char>, JsonView)>, name: Seq<char>) -> Option<JsonView> {
    lookup_from(fields, name, 0)
}

/// The value of the first member with the key `name`.
pub fn member<'a>(fields: &'a Vec<(String, Json)>, name: &str) -> (found: Option<&'a Json>)
    ensures
        match found {
            Some(json) => lookup(members_view(fields@), name@) == Some(json@),
            None => lookup(members_view(fields@), name@) is None,
        },
{
    let key = String::from_str(name);
    let mut i: usize = 0;
    while i < fields.len()
        invariant
            i <= fields.len(),
            key@ == name@,
            lookup(members_view(fields@), name@) == lookup_from(
                members_view(fields@),
                name@,
                i as int,
            ),
        decreases fields.len() - i,
    {
        if fields[i].0 == key {
            return Some(&fields[i].1);
        }
        i = i + 1;
    }
    None
}

/// The counter that a value holds: an integer that fits.
pub open spec fn as_stat(json: JsonView) -> Option<i32> {
    match json {
        JsonView::Number(numeral) => match integer_value(numeral) {
            Some(n) => if i32::MIN <= n <= i32::MAX {
                Some(n as i32)
            } else {
                None
            },
            None => None,
        },
        _ => None,
    }
}

/// The byte that a value holds: an integer from 0 to 255.
pub open spec fn as_small(json: JsonView) -> Option<u8> {
    match json {
        JsonView::Number(numeral) => match integer_value(numeral) {
            Some(n) => if 0 <= n <= u8::MAX {
                Some(n as u8)
            } else {
                None
            },
            None => None,
        },
        _ => None,
    }
}

/// The percentage that a value holds: an integer from 0 to 100.
pub open spec fn as_percent(json: JsonView) -> Option<u8> {
    match json {
        JsonView::Number(numeral) => match integer_value(numeral) {
            Some(n) => if 0 <= n <= 100 {
                Some(n as u8)
            } else {
                None
            },
            None => None,
        },
        _ => None,
    }
}

/// The flag that a value holds.
pub open spec fn as_flag(json: JsonView) -> Option<bool> {
    match json {
        JsonView::Bool(flag) => Some(flag),
        _ => None,
    }
}

/// The text that a value holds.
pub open spec fn as_text(json: JsonView) -> Option<Seq<char>> {
    match json {
        JsonView::Text(text) => Some(text),
        _ => None,
    }
}

/// The numeral of the number that a value holds, whole or not.
pub open spec fn as_real(json: JsonView) -> Option<Seq<char>> {
    match json {
        JsonView::Number(numeral) => Some(numeral),
        _ => None,
    }
}

/// The texts that a value holds: a list of nothing but text.
pub open spec fn as_text_list(json: JsonView) -> Option<Seq<Seq<char>>> {
    match json {
        JsonView::Array(items) => if forall|i: int|
            0 <= i < items.len() ==> #[trigger] as_text(items[i]) is Some {
            Some(Seq::new(items.len(), |i: int| as_text(items[i])->0))
        } else {
            None
        },
        _ => None,
    }
}

/// The counter that a value holds.
pub fn read_stat(json: &Json) -> (r: Option<i32>)
    ensures
        r == as_stat(json@),
{
    match json {
        Json::Number(numeral) => parse_integer(numeral.as_str(), i32::MIN, i32::MAX),
        _ => None,
    }
}

/// The byte that a value holds.
pub fn read_small(json: &Json) -> (r: Option<u8>)
    ensures
        r == as_small(json@),
{
    match json {
        Json::Number(numeral) => match parse_integer(numeral.as_str(), 0, 255) {
            Some(n) => Some(n as u8),
            None => None,
        },
        _ => None,
    }
}

/// The percentage that a value holds.
pub fn read_percent(json: &Json) -> (r: Option<u8>)
    ensures
        r == as_percent(json@),
{
    match json {
        Json::Number(numeral) => match parse_integer(numeral.as_str(), 0, 100) {
            Some(n) => Some(n as u8),
            None => None,
        },
        _ => None,
    }
}

/// The flag that a value holds.
pub fn read_flag(json: &Json) -> (r: Option<bool>)
    ensures
        r == as_flag(json@),
{
    match json {
        Json::Bool(flag) => Some(*flag),
        _ => None,
    }
}

/// The text that a value holds.
pub fn read_text(json: &Json) -> (r: Option<String>)
    ensures
        r.deep_view() == as_text(json@),
{
    match json {
        Json::Text(text) => Some(text.clone()),
        _ => None,
    }
}

/// The numeral of the number that a value holds.
pub fn read_real(json: &Json) -> (r: Option<String>)
    ensures
        r.deep_view() == as_real(json@),
{
    match json {
        Json::Number(numeral) => Some(numeral.clone()),
        _ => None,
    }
}

/// The texts that a value holds.
pub fn read_text_list(json: &Json) -> (r: Option<Vec<String>>)
    ensures
        r.deep_view() == as_text_list(json@),
{
    match json {
        Json::Array(items) => {
            let mut texts: Vec<String> = Vec::new();
            let mut i: usize = 0;
            let ghost trees = items_view(items@);
            proof {
                lemma_array_view(*items);
            }
            while i < items.len()
                invariant
                    i <= items.len(),
                    texts.len() == i,
                    json@ == JsonView::Array(trees),
                    trees == items_view(items@),
                    forall|j: int| 0 <= j < i ==> #[trigger] as_text(trees[j]) == Some(texts[j]@),
                decreases items.len() - i,
            {
                match read_text(&items[i]) {
                    Some(text) => texts.push(text),
                    None => {
                        assert(as_text(trees[i as int]) is None);
                        return None;
                    },
                }
                i = i + 1;
            }
            assert(as_text_list(json@) is Some);
            assert(texts.deep_view() =~= as_text_list(json@)->0);
            Some(texts)
        },
        _ => None,
    }
}

/// The error for a field that is absent though it has to be there.
pub fn missing_field(name: &str, parent: &str) -> (error: DecodeError)
    ensures
        error.deep_view() == (DecodeErrorView::MissingField { path: field_path(parent@, name@) }),
{
    DecodeError::MissingField { path: field_path_string(parent, name) }
}

/// The error for a field whose value is not of the field's kind.
pub fn wrong_type(name: &str, parent: &str) -> (error: DecodeError)
    ensures
        error.deep_view() == (DecodeErrorView::WrongType { path: field_path(parent@, name@) }),
{
    DecodeError::WrongType { path: field_path_string(parent, name) }
}

/// The value of a field, where the field is there and holds something
/// other than `null`.
pub open spec fn filled(fields: Seq<(Seq<char>, JsonView)>, name: Seq<char>) -> Option<JsonView> {
    match lookup(fields, name) {
        Some(JsonView::Null) => None,
        found => found,
    }
}

/// The value of a field, where the field is there and holds something
/// other than `null`.
pub fn member_filled<'a>(fields: &'a Vec<(String, Json)>, name: &str) -> (found: Option<&'a Json>)
    ensures
        match found {
            Some(json) => filled(members_view(fields@), name@) == Some(json@),
            None => filled(members_view(fields@), name@) is None,
        },
{
    match member(fields, name) {
        Some(Json::Null) => None,
        found => found,
    }
}

/// A counter that has to be there: an error where the field is absent, and
/// where it holds anything else.
pub open spec fn required_stat_of(
    fields: Seq<(Seq<char>, JsonView)>,
    name: Seq<char>,
    parent: Seq<char>,
) -> Result<i32, DecodeErrorView> {
    match lookup(fields, name) {
        None => Err(DecodeErrorView::MissingField { path: field_path(parent, name) }),
        Some(json) => match as_stat(json) {
            Some(value) => Ok(value),
            None => Err(DecodeErrorView::WrongType { path: field_path(parent, name) }),
        },
    }
}

/// A counter that has to be there: an error where the field is absent, and
/// where it holds anything else.
pub fn required_stat(
    fields: &Vec<(String, Json)>,
    name: &str,
    parent: &str,
) -> (r: Result<i32, DecodeError>)
    ensures
        outcome(r) == required_stat_of(members_view(fields@), name@, parent@),
{
    match member(fields, name) {
        None => Err(missing_field(name, parent)),
        Some(json) => match read_stat(json) {
            Some(value) => Ok(value),
            None => Err(wrong_type(name, parent)),
        },
    }
}

/// A counter that the API leaves out where it is zero: 0 where the field
/// is absent, an error where it holds anything but a counter.
pub open spec fn defaulted_stat_of(
    fields: Seq<(Seq<char>, JsonView)>,
    name: Seq<char>,
    parent: Seq<char>,
) -> Result<i32, DecodeErrorView> {
    match lookup(fields, name) {
        None => Ok(0),
        Some(json) => match as_stat(json) {
            Some(value) => Ok(value),
            None => Err(DecodeErrorView::WrongType { path: field_path(parent, name) }),
        },
    }
}

/// A counter that the API leaves out where it is zero: 0 where the field
/// is absent, an error where it holds anything but a counter.
pub fn defaulted_stat(
    fields: &Vec<(String, Json)>,
    name: &str,
    parent: &str,
) -> (r: Result<i32, DecodeError>)
    ensures
        outcome(r) == defaulted_stat_of(members_view(fields@), name@, parent@),
{
    match member(fields, name) {
        None => Ok(0),
        Some(json) => match read_stat(json) {
            Some(value) => Ok(value),
            None => Err(wrong_type(name, parent)),
        },
    }
}

/// A counter that may be missing: `None` where the field is absent or holds
/// `null`, an error where it holds anything else that is no counter.
pub open spec fn optional_stat_of(
    fields: Seq<(Seq<char>, JsonView)>,
    name: Seq<char>,
    parent: Seq<char>,
) -> Result<Option<i32>, DecodeErrorView> {
    match filled(fields, name) {
        None => Ok(None),
        Some(json) => match as_stat(json) {
            Some(value) => Ok(Some(value)),
            None => Err(DecodeErrorView::WrongType { path: field_path(parent, name) }),
        },
    }
}

/// A counter that may be missing: `None` where the field is absent or holds
/// `null`, an error where it holds anything else that is no counter.
pub fn optional_stat(
    fields: &Vec<(String, Json)>,
    name: &str,
    parent: &str,
) -> (r: Result<Option<i32>, DecodeError>)
    ensures
        outcome(r) == optional_stat_of(members_view(fields@), name@, parent@),
{
    match member_filled(fields, name) {
        None => Ok(None),
        Some(json) => match read_stat(json) {
            Some(value) => Ok(Some(value)),
            None => Err(wrong_type(name, parent)),
        },
    }
}

/// A byte that has to be there: an error where the field is absent, and
/// where it holds anything else.
pub open spec fn required_small_of(
    fields: Seq<(Seq<char>, JsonView)>,
    name: Seq<char>,
    parent: Seq<char>,
) -> Result<u8, DecodeErrorView> {
    match lookup(fields, name) {
        None => Err(DecodeErrorView::MissingField { path: field_path(parent, name) }),
        Some(json) => match as_small(json) {
            Some(value) => Ok(value),
            None => Err(DecodeErrorView::WrongType { path: field_path(parent, name) }),
        },
    }
}

/// A byte that has to be there: an error where the field is absent, and
/// where it holds anything else.
pub fn required_small(
    fields: &Vec<(String, Json)>,
    name: &str,
    parent: &str,
) -> (r: Result<u8, DecodeError>)
    ensures
        outcome(r) == required_small_of(members_view(fields@), name@, parent@),
{
    match member(fields, name) {
        None => Err(missing_field(name, parent)),
        Some(json) => match read_small(json) {
            Some(value) => Ok(value),
            None => Err(wrong_type(name, parent)),
        },
    }
}

/// A percentage that the API leaves out where it is zero: 0 where the field
/// is absent, an error where it holds anything but a percentage.
pub open spec fn defaulted_percent_of(
    fields: Seq<(Seq<char>, JsonView)>,
    name: Seq<char>,
    parent: Seq<char>,
) -> Result<u8, DecodeErrorView> {
    match lookup(fields, name) {
        None => Ok(0),
        Some(json) => match as_percent(json) {
            Some(value) => Ok(value),
            None => Err(DecodeErrorView::WrongType { path: field_path(parent, name) }),
        },
    }
}

/// A percentage that the API leaves out where it is zero: 0 where the field
/// is absent, an error where it holds anything but a percentage.
pub fn defaulted_percent(
    fields: &Vec<(String, Json)>,
    name: &str,
    parent: &str,
) -> (r: Result<u8, DecodeError>)
    ensures
        outcome(r) == defaulted_percent_of(members_view(fields@), name@, parent@),
{
    match member(fields, name) {
        None => Ok(0),
        Some(json) => match read_percent(json) {
            Some(value) => Ok(value),
            None => Err(wrong_type(name, parent)),
        },
    }
}

/// A flag that has to be there: an error where the field is absent, and
/// where it holds anything else.
pub open spec fn required_flag_of(
    fields: Seq<(Seq<char>, JsonView)>,
    name: Seq<char>,
    parent: Seq<char>,
) -> Result<bool, DecodeErrorView> {
    match lookup(fields, name) {
        None => Err(DecodeErrorView::MissingField { path: field_path(parent, name) }),
        Some(json) => match as_flag(json) {
            Some(value) => Ok(value),
            None => Err(DecodeErrorView::WrongType { path: field_path(parent, name) }),
        },
    }
}

/// A flag that has to be there: an error where the field is absent, and
/// where it holds anything else.
pub fn required_flag(
    fields: &Vec<(String, Json)>,
    name: &str,
    parent: &str,
) -> (r: Result<bool, DecodeError>)
    ensures
        outcome(r) == required_flag_of(members_view(fields@), name@, parent@),
{
    match member(fields, name) {
        None => Err(missing_field(name, parent)),
        Some(json) => match read_flag(json) {
            Some(value) => Ok(value),
            None => Err(wrong_type(name, parent)),
        },
    }
}

/// A flag that the API leaves out where it is false: false where the field
/// is absent, an error where it holds anything but a flag.
pub open spec fn defaulted_flag_of(
    fields: Seq<(Seq<char>, JsonView)>,
    name: Seq<char>,
    parent: Seq<char>,
) -> Result<bool, DecodeErrorView> {
    match lookup(fields, name) {
        None => Ok(false),
        Some(json) => match as_flag(json) {
            Some(value) => Ok(value),
            None => Err(DecodeErrorView::WrongType { path: field_path(parent, name) }),
        },
    }
}

/// A flag that the API leaves out where it is false: false where the field
/// is absent, an error where it holds anything but a flag.
pub fn defaulted_flag(
    fields: &Vec<(String, Json)>,
    name: &str,
    parent: &str,
) -> (r: Result<bool, DecodeError>)
    ensures
        outcome(r) == defaulted_flag_of(members_view(fields@), name@, parent@),
{
    match member(fields, name) {
        None => Ok(false),
        Some(json) => match read_flag(json) {
            Some(value) => Ok(value),
            None => Err(wrong_type(name, parent)),
        },
    }
}

/// A flag that may be missing: `None` where the field is absent or holds
/// `null`, an error where it holds anything else that is no flag.
pub open spec fn optional_flag_of(
    fields: Seq<(Seq<char>, JsonView)>,
    name: Seq<char>,
    parent: Seq<char>,
) -> Result<Option<bool>, DecodeErrorView> {
    match filled(fields, name) {
        None => Ok(None),
        Some(json) => match as_flag(json) {
            Some(value) => Ok(Some(value)),
            None => Err(DecodeErrorView::WrongType { path: field_path(parent, name) }),
        },
    }
}

/// A flag that may be missing: `None` where the field is absent or holds
/// `null`, an error where it holds anything else that is no flag.
pub fn optional_flag(
    fields: &Vec<(String, Json)>,
    name: &str,
    parent: &str,
) -> (r: Result<Option<bool>, DecodeError>)
    ensures
        outcome(r) == optional_flag_of(members_view(fields@), name@, parent@),
{
    match member_filled(fields, name) {
        None => Ok(None),
        Some(json) => match read_flag(json) {
            Some(value) => Ok(Some(value)),
            None => Err(wrong_type(name, parent)),
        },
    }
}

/// A text that has to be there: an error where the field is absent, and
/// where it holds anything else.
pub open spec fn required_text_of(
    fields: Seq<(Seq<char>, JsonView)>,
    name: Seq<char>,
    parent: Seq<char>,
) -> Result<Seq<char>, DecodeErrorView> {
    match lookup(fields, name) {
        None => Err(DecodeErrorView::MissingField { path: field_path(parent, name) }),
        Some(json) => match as_text(json) {
            Some(value) => Ok(value),
            None => Err(DecodeErrorView::WrongType { path: field_path(parent, name) }),
        },
    }
}

/// A text that has to be there: an error where the field is absent, and
/// where it holds anything else.
pub fn required_text(
    fields: &Vec<(String, Json)>,
    name: &str,
    parent: &str,
) -> (r: Result<String, DecodeError>)
    ensures
        outcome(r) == required_text_of(members_view(fields@), name@, parent@),
{
    match member(fields, name) {
        None => Err(missing_field(name, parent)),
        Some(json) => match read_text(json) {
            Some(value) => Ok(value),
            None => Err(wrong_type(name, parent)),
        },
    }
}

/// A text that may be missing: `None` where the field is absent or holds
/// `null`, an error where it holds anything else that is no text.
pub open spec fn optional_text_of(
    fields: Seq<(Seq<char>, JsonView)>,
    name: Seq<char>,
    parent: Seq<char>,
) -> Result<Option<Seq<char>>, DecodeErrorView> {
    match filled(fields, name) {
        None => Ok(None),
        Some(json) => match as_text(json) {
            Some(value) => Ok(Some(value)),
            None => Err(DecodeErrorView::WrongType { path: field_path(parent, name) }),
        },
    }
}

/// A text that may be missing: `None` where the field is absent or holds
/// `null`, an error where it holds anything else that is no text.
pub fn optional_text(
    fields: &Vec<(String, Json)>,
    name: &str,
    parent: &str,
) -> (r: Result<Option<String>, DecodeError>)
    ensures
        outcome(r) == optional_text_of(members_view(fields@), name@, parent@),
{
    match member_filled(fields, name) {
        None => Ok(None),
        Some(json) => match read_text(json) {
            Some(value) => Ok(Some(value)),
            None => Err(wrong_type(name, parent)),
        },
    }
}

/// A number that has to be there: an error where the field is absent, and
/// where it holds anything else.
pub open spec fn required_real_of(
    fields: Seq<(Seq<char>, JsonView)>,
    name: Seq<char>,
    parent: Seq<char>,
) -> Result<Seq<char>, DecodeErrorView> {
    match lookup(fields, name) {
        None => Err(DecodeErrorView::MissingField { path: field_path(parent, name) }),
        Some(json) => match as_real(json) {
            Some(value) => Ok(value),
            None => Err(DecodeErrorView::WrongType { path: field_path(parent, name) }),
        },
    }
}

/// A number that has to be there: an error where the field is absent, and
/// where it holds anything else.
pub fn required_real(
    fields: &Vec<(String, Json)>,
    name: &str,
    parent: &str,
) -> (r: Result<String, DecodeError>)
    ensures
        outcome(r) == required_real_of(members_view(fields@), name@, parent@),
{
    match member(fields, name) {
        None => Err(missing_field(name, parent)),
        Some(json) => match read_real(json) {
            Some(value) => Ok(value),
            None => Err(wrong_type(name, parent)),
        },
    }
}

/// A list of texts that has to be there: an error where the field is absent, and
/// where it holds anything else.
pub open spec fn required_text_list_of(
    fields: Seq<(Seq<char>, JsonView)>,
    name: Seq<char>,
    parent: Seq<char>,
) -> Result<Seq<Seq<char>>, DecodeErrorView> {
    match lookup(fields, name) {
        None => Err(DecodeErrorView::MissingField { path: field_path(parent, name) }),
        Some(json) => match as_text_list(json) {
            Some(value) => Ok(value),
            None => Err(DecodeErrorView::WrongType { path: field_path(parent, name) }),
        },
    }
}

/// A list of texts that has to be there: an error where the field is absent, and
/// where it holds anything else.
pub fn required_text_list(
    fields: &Vec<(String, Json)>,
    name: &str,
    parent: &str,
) -> (r: Result<Vec<String>, DecodeError>)
    ensures
        outcome(r) == required_text_list_of(members_view(fields@), name@, parent@),
{
    match member(fields, name) {
        None => Err(missing_field(name, parent)),
        Some(json) => match read_text_list(json) {
            Some(value) => Ok(value),
            None => Err(wrong_type(name, parent)),
        },
    }
}

/// A counter that is written as its decimal numeral is read as itself,
/// whether it is negative or not.
pub proof fn lemma_counter_round_trip(counter: i32)
    ensures
        as_stat(JsonView::Number(decimal(counter as int))) == Some(counter),
{
    lemma_decimal_round_trip(counter as int);
}

} // verus!
