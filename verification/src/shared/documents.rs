//! How the laws speak of JSON documents: by their members and items, and by nothing else.
use crate::shared::json;
use vstd::prelude::*;

verus! {

/// The member of that name, where the document is an object that has it.
pub open spec fn member(doc: json::Json, name: Seq<char>) -> Option<json::Json> {
    if doc is Object && doc->Object_0.dom().contains(name) {
        Some(doc->Object_0[name])
    } else {
        None
    }
}

/// The part of a record: the member of that name, or the item at that place.
pub open spec fn part(doc: json::Json, place: int, name: Seq<char>) -> Option<json::Json> {
    if doc is Array && 0 <= place < doc->Array_0.len() {
        Some(doc->Array_0[place])
    } else {
        member(doc, name)
    }
}

/// The document is an object, or an array with at most so many items.
pub open spec fn is_record(doc: json::Json, count: int) -> bool {
    doc is Object || (doc is Array && doc->Array_0.len() <= count)
}

/// The part is not there, or `null`.
pub open spec fn absent(part: Option<json::Json>) -> bool {
    part is None || part == Some(json::Json::Null)
}

/// The part is a text.
pub open spec fn is_text(part: Option<json::Json>) -> bool {
    part is Some && part->Some_0 is Str
}

/// The part is a number that is an integer of 64 bits.
pub open spec fn is_count(part: Option<json::Json>) -> bool {
    part is Some && part->Some_0 is Number && json::number_i64(part->Some_0->Number_0) is Some
}

/// The part is that text.
pub open spec fn says(part: Option<json::Json>, text: Seq<char>) -> bool {
    part == Some(json::Json::Str(text))
}

/// The part is that text, or absent where there is none.
pub open spec fn may_say(part: Option<json::Json>, text: Option<Seq<char>>) -> bool {
    if text is Some {
        says(part, text->Some_0)
    } else {
        absent(part)
    }
}

/// The part is that integer.
pub open spec fn counts(part: Option<json::Json>, n: i64) -> bool {
    is_count(part) && json::number_i64(part->Some_0->Number_0) == Some(n)
}

/// The part is that integer, or absent where there is none.
pub open spec fn may_count(part: Option<json::Json>, n: Option<i64>) -> bool {
    if n is Some {
        counts(part, n->Some_0)
    } else {
        absent(part)
    }
}

} // verus!
