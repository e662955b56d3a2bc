//! Reading values of the wire format out of JSON documents.
//!
//! A record is written as an object, whose members are looked up by name and of which unknown ones
//! are ignored, or as an array, whose items are the members in the order of declaration.
use crate::shared::json;
use crate::shared::json::get_member;
use crate::shared::json::number_as_i64;
use crate::shared::json::open_value;
use crate::shared::json::print_value;
use crate::shared::json::JsonRef;
use crate::shared::text::characters;
use crate::shared::text::decimal_text;
use serde_json::Value;
use vstd::prelude::*;

verus! {

/// A type that the wire format writes as a JSON document.
pub trait FromJson: Sized + DeepView {
    /// The value that a document stands for, where it stands for one.
    spec fn from_json(doc: json::Json) -> Option<<Self as DeepView>::V>;

    /// Reads the value. An error says what is wrong with the document, in words that are not fixed.
    fn from_value(value: &Value) -> (result: Result<Self, String>)
        ensures
            decoded(result, Self::from_json(json::value_json(*value))),
    ;
}

/// `result` is the value `expected`, or an error where there is none.
pub open spec fn decoded<T: DeepView>(
    result: Result<T, String>,
    expected: Option<<T as DeepView>::V>,
) -> bool {
    match result {
        Ok(value) => expected == Some(value.deep_view()),
        Err(_) => expected is None,
    }
}

/// Whether a document can be a record with `count` members.
pub open spec fn record_shape(doc: json::Json, count: nat) -> bool {
    match doc {
        json::Json::Object(_) => true,
        json::Json::Array(items) => items.len() <= count,
        _ => false,
    }
}

/// A member of a record, by its name or by its place.
pub open spec fn member_of(doc: json::Json, place: nat, name: Seq<char>) -> Option<json::Json> {
    match doc {
        json::Json::Object(members) => if members.dom().contains(name) {
            Some(members[name])
        } else {
            None
        },
        json::Json::Array(items) => if place < items.len() {
            Some(items[place as int])
        } else {
            None
        },
        _ => None,
    }
}

/// A member that has to be there.
pub open spec fn required_member<T: FromJson>(
    doc: json::Json,
    place: nat,
    name: Seq<char>,
) -> Option<<T as DeepView>::V> {
    match member_of(doc, place, name) {
        Some(member) => T::from_json(member),
        None => None,
    }
}

/// A member that need not be there.
pub open spec fn optional_member<T: FromJson>(
    doc: json::Json,
    place: nat,
    name: Seq<char>,
    default: <T as DeepView>::V,
) -> Option<<T as DeepView>::V> {
    match member_of(doc, place, name) {
        Some(member) => T::from_json(member),
        None => Some(default),
    }
}

/// The values that the items of an array stand for, where each stands for one.
pub open spec fn all_from_json<T: FromJson>(items: Seq<json::Json>) -> Option<
    Seq<<T as DeepView>::V>,
>
    decreases items.len(),
{
    if items.len() == 0 {
        Some(Seq::empty())
    } else {
        match (all_from_json::<T>(items.drop_last()), T::from_json(items.last())) {
            (Some(values), Some(value)) => Some(values.push(value)),
            _ => None,
        }
    }
}

proof fn lemma_bad_item_decides<T: FromJson>(items: Seq<json::Json>, n: int)
    requires
        0 <= n <= items.len(),
        all_from_json::<T>(items.take(n)) is None,
    ensures
        all_from_json::<T>(items) is None,
    decreases items.len(),
{
    if n == items.len() {
        assert(items.take(n) =~= items);
    } else {
        assert(items.drop_last().take(n) =~= items.take(n));
        lemma_bad_item_decides::<T>(items.drop_last(), n);
    }
}

fn is_whole(number: &str) -> bool {
    let chars: Vec<char> = characters(number);
    let mut i: usize = 0;
    while i < chars.len()
        invariant
            i <= chars@.len(),
        decreases chars@.len() - i,
    {
        if chars[i] == '.' || chars[i] == 'e' || chars[i] == 'E' {
            return false;
        }
        i += 1;
    }
    true
}

fn describe(value: &Value) -> String {
    let shown: String = print_value(value);
    match open_value(value) {
        JsonRef::Null => shown,
        JsonRef::Bool(_) => "boolean `".to_string().concat(shown.as_str()).concat("`"),
        JsonRef::Number(_) => if is_whole(shown.as_str()) {
            "integer `".to_string().concat(shown.as_str()).concat("`")
        } else {
            "floating point `".to_string().concat(shown.as_str()).concat("`")
        },
        JsonRef::Str(_) => "string ".to_string().concat(shown.as_str()),
        JsonRef::Array(_) => "sequence".to_string(),
        JsonRef::Object(_) => "map".to_string(),
    }
}

pub(crate) fn complain_kind(value: &Value, expected: &str) -> String {
    "invalid type: ".to_string().concat(describe(value).as_str()).concat(", expected ").concat(
        expected,
    )
}

fn complain_number(value: &Value) -> String {
    if is_whole(print_value(value).as_str()) {
        "invalid value: ".to_string().concat(describe(value).as_str()).concat(", expected i64")
    } else {
        complain_kind(value, "i64")
    }
}

pub(crate) fn complain_missing(name: &str) -> String {
    "missing field `".to_string().concat(name).concat("`")
}

pub(crate) fn complain_length(len: usize, expected: &str) -> String {
    "invalid length ".to_string().concat(decimal_text(len).as_str()).concat(", expected ").concat(
        expected,
    )
}

/// Checks that a document can be a record with `count` members.
pub(crate) fn check_record(value: &Value, count: usize, expected: &str) -> (result: Result<
    (),
    String,
>)
    ensures
        result is Ok <==> record_shape(json::value_json(*value), count as nat),
{
    match open_value(value) {
        JsonRef::Object(_) => Ok(()),
        JsonRef::Array(items) => if items.len() <= count {
            Ok(())
        } else {
            Err(complain_length(items.len(), "fewer elements in array"))
        },
        _ => Err(complain_kind(value, expected)),
    }
}

/// Looks a member of a record up.
pub(crate) fn find_member<'a>(value: &'a Value, place: usize, name: &str) -> (member: Option<
    &'a Value,
>)
    ensures
        match member {
            Some(found) => member_of(json::value_json(*value), place as nat, name@) == Some(
                json::value_json(*found),
            ),
            None => member_of(json::value_json(*value), place as nat, name@) is None,
        },
{
    match open_value(value) {
        JsonRef::Object(object) => get_member(object, name),
        JsonRef::Array(items) => if place < items.len() {
            Some(&items[place])
        } else {
            None
        },
        _ => None,
    }
}

/// Reads a member that has to be there. `record` says what the members make up, for the complaint
/// about an array that is too short.
pub(crate) fn read_required<T: FromJson>(
    value: &Value,
    place: usize,
    name: &str,
    record: &str,
) -> (result: Result<T, String>)
    ensures
        decoded(result, required_member::<T>(json::value_json(*value), place as nat, name@)),
{
    match find_member(value, place, name) {
        Some(member) => T::from_value(member),
        None => match open_value(value) {
            JsonRef::Array(_) => Err(complain_length(place, record)),
            _ => Err(complain_missing(name)),
        },
    }
}

/// Reads a member that need not be there.
pub(crate) fn read_optional<T: FromJson>(
    value: &Value,
    place: usize,
    name: &str,
    default: T,
) -> (result: Result<T, String>)
    ensures
        decoded(
            result,
            optional_member::<T>(json::value_json(*value), place as nat, name@, default.deep_view()),
        ),
{
    match find_member(value, place, name) {
        Some(member) => T::from_value(member),
        None => Ok(default),
    }
}

/// Reads the items of an array.
pub(crate) fn read_items<T: FromJson>(items: &Vec<Value>) -> (result: Result<Vec<T>, String>)
    ensures
        decoded(result, all_from_json::<T>(json::values_json(items@))),
{
    let ghost all = json::values_json(items@);
    let mut values: Vec<T> = Vec::new();
    let mut i: usize = 0;
    assert(values.deep_view() =~= Seq::empty());
    while i < items.len()
        invariant
            i <= items@.len(),
            all == json::values_json(items@),
            all_from_json::<T>(all.take(i as int)) == Some(values.deep_view()),
        decreases items@.len() - i,
    {
        let result: Result<T, String> = T::from_value(&items[i]);
        assert(all.take(i + 1).drop_last() =~= all.take(i as int));
        assert(all.take(i + 1).last() == json::value_json(items@[i as int]));
        match result {
            Ok(value) => {
                let ghost before = values.deep_view();
                let ghost read = value.deep_view();
                values.push(value);
                assert(values.deep_view() =~= before.push(read));
            },
            Err(message) => {
                proof {
                    lemma_bad_item_decides::<T>(all, i + 1);
                }
                return Err(message);
            },
        }
        i += 1;
    }
    assert(all.take(i as int) =~= all);
    Ok(values)
}

impl FromJson for String {
    open spec fn from_json(doc: json::Json) -> Option<Seq<char>> {
        match doc {
            json::Json::Str(text) => Some(text),
            _ => None,
        }
    }

    fn from_value(value: &Value) -> (result: Result<String, String>) {
        match open_value(value) {
            JsonRef::Str(text) => Ok(text.to_string()),
            _ => Err(complain_kind(value, "a string")),
        }
    }
}

impl FromJson for i64 {
    open spec fn from_json(doc: json::Json) -> Option<i64> {
        match doc {
            json::Json::Number(n) => json::number_i64(n),
            _ => None,
        }
    }

    fn from_value(value: &Value) -> (result: Result<i64, String>) {
        match open_value(value) {
            JsonRef::Number(n) => match number_as_i64(n) {
                Some(i) => Ok(i),
                None => Err(complain_number(value)),
            },
            _ => Err(complain_kind(value, "i64")),
        }
    }
}

impl FromJson for bool {
    open spec fn from_json(doc: json::Json) -> Option<bool> {
        match doc {
            json::Json::Bool(b) => Some(b),
            _ => None,
        }
    }

    fn from_value(value: &Value) -> (result: Result<bool, String>) {
        match open_value(value) {
            JsonRef::Bool(b) => Ok(b),
            _ => Err(complain_kind(value, "a boolean")),
        }
    }
}

impl<T: FromJson> FromJson for Option<T> {
    /// `null` stands for no value.
    open spec fn from_json(doc: json::Json) -> Option<Option<<T as DeepView>::V>> {
        match doc {
            json::Json::Null => Some(None),
            _ => match T::from_json(doc) {
                Some(value) => Some(Some(value)),
                None => None,
            },
        }
    }

    fn from_value(value: &Value) -> (result: Result<Option<T>, String>) {
        match open_value(value) {
            JsonRef::Null => Ok(None),
            _ => match T::from_value(value) {
                Ok(read) => Ok(Some(read)),
                Err(message) => Err(message),
            },
        }
    }
}

impl<T: FromJson> FromJson for Vec<T> {
    open spec fn from_json(doc: json::Json) -> Option<Seq<<T as DeepView>::V>> {
        match doc {
            json::Json::Array(items) => all_from_json::<T>(items),
            _ => None,
        }
    }

    fn from_value(value: &Value) -> (result: Result<Vec<T>, String>) {
        match open_value(value) {
            JsonRef::Array(items) => read_items::<T>(items),
            _ => Err(complain_kind(value, "a sequence")),
        }
    }
}

} // verus!
