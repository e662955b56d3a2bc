//! Reading records straight from JSON text.
//!
//! A member that a record does not know is skipped without a look at what it holds, so it does not
//! matter how deep it nests or whether its numbers fit. A member that a record knows may be written
//! once only.
use crate::shared::decode;
use crate::shared::decode::complain_kind;
use crate::shared::decode::complain_length;
use crate::shared::decode::complain_missing;
use crate::shared::decode::FromJson;
use crate::shared::json;
use crate::shared::json::clone_value;
use crate::shared::json::open_value;
use crate::shared::json::parse_value;
use crate::shared::json::JsonRef;
use crate::shared::text::same_text;
use serde_json::Value;
use vstd::prelude::*;

verus! {

/// A type that the wire format writes as JSON text.
pub trait FromText: Sized + DeepView {
    /// The value that a text stands for, where it stands for one.
    spec fn from_text(text: Seq<char>) -> Option<<Self as DeepView>::V>;

    /// Reads the value. An error says what is wrong with the text, in words that are not fixed.
    fn read_text(text: &str) -> (result: Result<Self, String>)
        ensures
            decode::decoded(result, Self::from_text(text@)),
    ;
}

/// The first JSON value of a text, with the white space before it, as `serde_json` finds its end.
pub uninterp spec fn value_head(text: Seq<char>) -> Option<Seq<char>>;

/// `serde_json::StreamDeserializer` over `IgnoredAny`: cuts the first value off a text, and does not
/// build it. The text is cut after the value, where `StreamDeserializer::byte_offset` says it ends.
#[verifier::external_body]
fn split_value(text: &str) -> (parts: Option<(&str, &str)>)
    ensures
        match parts {
            Some((head, rest)) => value_head(text@) == Some(head@) && text@ == head@ + rest@,
            None => value_head(text@) is None,
        },
{
    let mut values = serde_json::Deserializer::from_str(text).into_iter::<serde::de::IgnoredAny>();
    match values.next() {
        Some(Ok(_)) => Some(text.split_at(values.byte_offset())),
        _ => None,
    }
}

/// White space between the tokens of JSON.
pub open spec fn is_blank(c: char) -> bool {
    c == ' ' || c == '\n' || c == '\t' || c == '\r'
}

/// `s` without the white space at its start.
pub open spec fn without_blank(s: Seq<char>) -> Seq<char>
    decreases s.len(),
{
    if s.len() > 0 && is_blank(s.first()) {
        without_blank(s.drop_first())
    } else {
        s
    }
}

/// `s` starts with `c`.
pub open spec fn starts(s: Seq<char>, c: char) -> bool {
    s.len() > 0 && s.first() == c
}

/// Nothing is added.
pub proof fn lemma_without_blank(s: Seq<char>)
    ensures
        without_blank(s).len() <= s.len(),
    decreases s.len(),
{
    if s.len() > 0 && is_blank(s.first()) {
        lemma_without_blank(s.drop_first());
    }
}

/// A text without its first value, where there is one.
pub open spec fn after_value(text: Seq<char>) -> Option<(Seq<char>, Seq<char>)> {
    match value_head(text) {
        Some(head) => if 0 < head.len() <= text.len() {
            Some((head, text.skip(head.len() as int)))
        } else {
            None
        },
        None => None,
    }
}

/// A member of an object: its name, and the text of its value.
pub type Entry = (Seq<char>, Seq<char>);

/// The first member in a text, and what follows it.
pub open spec fn first_entry(text: Seq<char>) -> Option<(Entry, Seq<char>)> {
    match after_value(without_blank(text)) {
        Some((name, rest)) => match json::json_parse(name) {
            Ok(json::Json::Str(key)) => {
                let colon = without_blank(rest);
                if starts(colon, ':') {
                    match after_value(colon.skip(1)) {
                        Some((value, rest)) => Some(((key, value), without_blank(rest))),
                        None => None,
                    }
                } else {
                    None
                }
            },
            _ => None,
        },
        None => None,
    }
}

/// A member takes up some of the text.
pub proof fn lemma_first_entry(text: Seq<char>)
    ensures
        first_entry(text) matches Some((_, rest)) ==> rest.len() < text.len(),
{
    let t = without_blank(text);
    lemma_without_blank(text);
    if let Some((name, rest)) = after_value(t) {
        lemma_without_blank(rest);
        let colon = without_blank(rest);
        if starts(colon, ':') {
            if let Some((value, rest)) = after_value(colon.skip(1)) {
                lemma_without_blank(rest);
            }
        }
    }
}

/// The members of an object from a text on that follows one of its commas, after those `found`, and
/// what follows the object.
pub open spec fn entries_from(text: Seq<char>, found: Seq<Entry>) -> Option<(Seq<Entry>, Seq<char>)>
    decreases text.len(),
{
    match first_entry(text) {
        Some((entry, rest)) => if starts(rest, ',') {
            proof {
                lemma_first_entry(text);
            }
            entries_from(rest.skip(1), found.push(entry))
        } else if starts(rest, '}') {
            Some((found.push(entry), rest.skip(1)))
        } else {
            None
        },
        None => None,
    }
}

/// The members of an object whose opening brace a text follows, and what follows the object.
pub open spec fn entries_of(text: Seq<char>) -> Option<(Seq<Entry>, Seq<char>)> {
    let t = without_blank(text);
    if starts(t, '}') {
        Some((Seq::empty(), t.skip(1)))
    } else {
        entries_from(t, Seq::empty())
    }
}

/// The items of an array from a text on that follows one of its commas, after those `found`, and what
/// follows the array.
pub open spec fn items_from(text: Seq<char>, found: Seq<Seq<char>>) -> Option<
    (Seq<Seq<char>>, Seq<char>),
>
    decreases text.len(),
{
    match after_value(text) {
        Some((item, after)) => {
            let rest = without_blank(after);
            if starts(rest, ',') {
                proof {
                    lemma_without_blank(after);
                }
                items_from(rest.skip(1), found.push(item))
            } else if starts(rest, ']') {
                Some((found.push(item), rest.skip(1)))
            } else {
                None
            }
        },
        None => None,
    }
}

/// The items of an array whose opening bracket a text follows, and what follows the array.
pub open spec fn items_of(text: Seq<char>) -> Option<(Seq<Seq<char>>, Seq<char>)> {
    let t = without_blank(text);
    if starts(t, ']') {
        Some((Seq::empty(), t.skip(1)))
    } else {
        items_from(t, Seq::empty())
    }
}

/// What a text is made of.
pub ghost enum Shape {
    /// An object, with its members in their order.
    Record(Seq<Entry>),
    /// An array, with its items.
    List(Seq<Seq<char>>),
    /// Anything else.
    Other,
}

/// What a text is made of. Nothing but white space may follow an object or an array.
pub open spec fn shape_of(text: Seq<char>) -> Shape {
    let t = without_blank(text);
    if starts(t, '{') {
        match entries_of(t.skip(1)) {
            Some((entries, rest)) => if without_blank(rest).len() == 0 {
                Shape::Record(entries)
            } else {
                Shape::Other
            },
            None => Shape::Other,
        }
    } else if starts(t, '[') {
        match items_of(t.skip(1)) {
            Some((items, rest)) => if without_blank(rest).len() == 0 {
                Shape::List(items)
            } else {
                Shape::Other
            },
            None => Shape::Other,
        }
    } else {
        Shape::Other
    }
}

/// How often a member is written.
pub open spec fn times(entries: Seq<Entry>, name: Seq<char>) -> nat
    decreases entries.len(),
{
    if entries.len() == 0 {
        0
    } else {
        times(entries.drop_last(), name) + if entries.last().0 == name {
            1nat
        } else {
            0nat
        }
    }
}

/// The text of a member, as it is written last.
pub open spec fn last_text(entries: Seq<Entry>, name: Seq<char>) -> Option<Seq<char>>
    decreases entries.len(),
{
    if entries.len() == 0 {
        None
    } else if entries.last().0 == name {
        Some(entries.last().1)
    } else {
        last_text(entries.drop_last(), name)
    }
}

/// The text of a member of a record, by its name or by its place, where it is there. There is no
/// answer where the member is written twice, or there is no record.
pub open spec fn member_text(shape: Shape, place: nat, name: Seq<char>) -> Option<Option<Seq<char>>> {
    match shape {
        Shape::Record(entries) => if times(entries, name) <= 1 {
            Some(last_text(entries, name))
        } else {
            None
        },
        Shape::List(items) => if place < items.len() {
            Some(Some(items[place as int]))
        } else {
            Some(None)
        },
        Shape::Other => None,
    }
}

/// Whether a text can be a record with `count` members.
pub open spec fn record_text(shape: Shape, count: nat) -> bool {
    match shape {
        Shape::Record(_) => true,
        Shape::List(items) => items.len() <= count,
        Shape::Other => false,
    }
}

/// A member that has to be there.
pub open spec fn required_text<T: FromText>(shape: Shape, place: nat, name: Seq<char>) -> Option<
    <T as DeepView>::V,
> {
    match member_text(shape, place, name) {
        Some(Some(text)) => T::from_text(text),
        _ => None,
    }
}

/// A member that need not be there.
pub open spec fn optional_text<T: FromText>(
    shape: Shape,
    place: nat,
    name: Seq<char>,
    default: <T as DeepView>::V,
) -> Option<<T as DeepView>::V> {
    match member_text(shape, place, name) {
        Some(Some(text)) => T::from_text(text),
        Some(None) => Some(default),
        None => None,
    }
}

/// The values that the items of an array stand for, where each stands for one.
pub open spec fn all_from_text<T: FromText>(items: Seq<Seq<char>>) -> Option<
    Seq<<T as DeepView>::V>,
>
    decreases items.len(),
{
    if items.len() == 0 {
        Some(Seq::empty())
    } else {
        match (all_from_text::<T>(items.drop_last()), T::from_text(items.last())) {
            (Some(values), Some(value)) => Some(values.push(value)),
            _ => None,
        }
    }
}

/// Whether a text is `null`.
pub open spec fn is_null(text: Seq<char>) -> bool {
    without_blank(text) == "null"@
}

/// The document that a text holds which stands `depth` levels deep in another. The JSON parser counts
/// those levels.
pub open spec fn inner_document(text: Seq<char>, depth: nat) -> Option<json::Json>
    decreases depth,
{
    if depth == 0 {
        match json::json_parse(text) {
            Ok(doc) => Some(doc),
            Err(_) => None,
        }
    } else {
        match inner_document("["@ + text + "]"@, (depth - 1) as nat) {
            Some(json::Json::Array(items)) => if items.len() == 1 {
                Some(items[0])
            } else {
                None
            },
            _ => None,
        }
    }
}

/// What a text is made of, as far as records need it.
pub enum RawShape<'a> {
    Record(Vec<(String, &'a str)>),
    List(Vec<&'a str>),
    /// Anything else, as it is written.
    Other(&'a str),
}

spec fn entries_view(entries: Seq<(String, &str)>) -> Seq<Entry> {
    Seq::new(entries.len(), |i: int| (entries[i].0@, entries[i].1@))
}

spec fn items_view(items: Seq<&str>) -> Seq<Seq<char>> {
    Seq::new(items.len(), |i: int| items[i]@)
}

impl<'a> RawShape<'a> {
    /// What the text is made of.
    pub closed spec fn shape(self) -> Shape {
        match self {
            RawShape::Record(entries) => Shape::Record(entries_view(entries@)),
            RawShape::List(items) => Shape::List(items_view(items@)),
            RawShape::Other(_) => Shape::Other,
        }
    }
}

fn skip_blank(text: &str) -> (rest: &str)
    ensures
        rest@ == without_blank(text@),
{
    let mut from: usize = 0;
    let total: usize = text.unicode_len();
    assert(text@.skip(0) =~= text@);
    while from < total
        invariant_except_break
            without_blank(text@) == without_blank(text@.skip(from as int)),
        invariant
            from <= total,
            total == text@.len(),
        ensures
            without_blank(text@) == text@.skip(from as int),
        decreases total - from,
    {
        let c: char = text.get_char(from);
        if !(c == ' ' || c == '\n' || c == '\t' || c == '\r') {
            break ;
        }
        assert(text@.skip(from as int).drop_first() =~= text@.skip(from + 1));
        from += 1;
    }
    assert(text@.subrange(from as int, total as int) =~= text@.skip(from as int));
    text.substring_char(from, total)
}

fn after_char(text: &str, c: char) -> (rest: Option<&str>)
    ensures
        rest is Some <==> starts(text@, c),
        rest matches Some(r) ==> r@ == text@.skip(1),
{
    let total: usize = text.unicode_len();
    if total > 0 && text.get_char(0) == c {
        assert(text@.subrange(1, total as int) =~= text@.skip(1));
        Some(text.substring_char(1, total))
    } else {
        None
    }
}

fn cut_value(text: &str) -> (parts: Option<(&str, &str)>)
    ensures
        match parts {
            Some((head, rest)) => after_value(text@) == Some((head@, rest@)),
            None => after_value(text@) is None,
        },
{
    match split_value(text) {
        Some((head, rest)) => {
            assert(text@.skip(head@.len() as int) =~= rest@);
            if head.is_empty() {
                None
            } else {
                Some((head, rest))
            }
        },
        None => None,
    }
}

fn read_name(text: &str) -> (name: Option<String>)
    ensures
        match name {
            Some(n) => json::json_parse(text@) == Ok::<json::Json, Seq<char>>(json::Json::Str(n@)),
            None => !(json::json_parse(text@) matches Ok(json::Json::Str(_))),
        },
{
    match parse_value(text) {
        Ok(value) => match open_value(&value) {
            JsonRef::Str(name) => Some(name.to_string()),
            _ => None,
        },
        Err(_) => None,
    }
}

fn cut_entry(text: &str) -> (parts: Option<((String, &str), &str)>)
    ensures
        match parts {
            Some((entry, rest)) => first_entry(text@) == Some(((entry.0@, entry.1@), rest@)),
            None => first_entry(text@) is None,
        },
{
    let (name, rest): (&str, &str) = match cut_value(skip_blank(text)) {
        Some(parts) => parts,
        None => {
            return None;
        },
    };
    let key: String = match read_name(name) {
        Some(key) => key,
        None => {
            return None;
        },
    };
    match after_char(skip_blank(rest), ':') {
        Some(rest) => match cut_value(rest) {
            Some((value, rest)) => Some(((key, value), skip_blank(rest))),
            None => None,
        },
        None => None,
    }
}

fn read_entries(text: &str) -> (parts: Option<(Vec<(String, &str)>, &str)>)
    ensures
        match parts {
            Some((entries, rest)) => entries_of(text@) == Some((entries_view(entries@), rest@)),
            None => entries_of(text@) is None,
        },
{
    let mut entries: Vec<(String, &str)> = Vec::new();
    assert(entries_view(entries@) =~= Seq::empty());
    let mut left: &str = skip_blank(text);
    if let Some(rest) = after_char(left, '}') {
        return Some((entries, rest));
    }
    loop
        invariant
            entries_of(text@) == entries_from(left@, entries_view(entries@)),
        decreases left@.len(),
    {
        proof {
            lemma_first_entry(left@);
        }
        match cut_entry(left) {
            Some((entry, rest)) => {
                let ghost before = entries_view(entries@);
                let ghost told = (entry.0@, entry.1@);
                entries.push(entry);
                assert(entries_view(entries@) =~= before.push(told));
                if let Some(more) = after_char(rest, ',') {
                    left = more;
                } else if let Some(end) = after_char(rest, '}') {
                    return Some((entries, end));
                } else {
                    return None;
                }
            },
            None => {
                return None;
            },
        }
    }
}

fn read_list(text: &str) -> (parts: Option<(Vec<&str>, &str)>)
    ensures
        match parts {
            Some((items, rest)) => items_of(text@) == Some((items_view(items@), rest@)),
            None => items_of(text@) is None,
        },
{
    let mut items: Vec<&str> = Vec::new();
    assert(items_view(items@) =~= Seq::empty());
    let mut left: &str = skip_blank(text);
    if let Some(rest) = after_char(left, ']') {
        return Some((items, rest));
    }
    loop
        invariant
            items_of(text@) == items_from(left@, items_view(items@)),
        decreases left@.len(),
    {
        match cut_value(left) {
            Some((item, after)) => {
                let ghost before = items_view(items@);
                proof {
                    lemma_without_blank(after@);
                }
                items.push(item);
                assert(items_view(items@) =~= before.push(item@));
                let rest: &str = skip_blank(after);
                if let Some(more) = after_char(rest, ',') {
                    left = more;
                } else if let Some(end) = after_char(rest, ']') {
                    return Some((items, end));
                } else {
                    return None;
                }
            },
            None => {
                return None;
            },
        }
    }
}

/// Takes a text apart.
pub(crate) fn open_text(text: &str) -> (shape: RawShape<'_>)
    ensures
        shape.shape() == shape_of(text@),
{
    let start: &str = skip_blank(text);
    if let Some(inside) = after_char(start, '{') {
        match read_entries(inside) {
            Some((entries, rest)) => if skip_blank(rest).is_empty() {
                RawShape::Record(entries)
            } else {
                RawShape::Other(text)
            },
            None => RawShape::Other(text),
        }
    } else if let Some(inside) = after_char(start, '[') {
        match read_list(inside) {
            Some((items, rest)) => if skip_blank(rest).is_empty() {
                RawShape::List(items)
            } else {
                RawShape::Other(text)
            },
            None => RawShape::Other(text),
        }
    } else {
        RawShape::Other(text)
    }
}

fn find_entry<'a>(entries: &Vec<(String, &'a str)>, name: &str) -> (found: Result<
    Option<&'a str>,
    String,
>)
    ensures
        match found {
            Ok(Some(text)) => times(entries_view(entries@), name@) <= 1 && last_text(
                entries_view(entries@),
                name@,
            ) == Some(text@),
            Ok(None) => times(entries_view(entries@), name@) <= 1 && last_text(
                entries_view(entries@),
                name@,
            ) is None,
            Err(_) => times(entries_view(entries@), name@) > 1,
        },
{
    let ghost all = entries_view(entries@);
    let mut found: Option<&'a str> = None;
    let mut i: usize = 0;
    while i < entries.len()
        invariant
            i <= entries@.len(),
            all == entries_view(entries@),
            times(all.take(i as int), name@) == (if found is Some {
                1nat
            } else {
                0nat
            }),
            match found {
                Some(text) => last_text(all.take(i as int), name@) == Some(text@),
                None => last_text(all.take(i as int), name@) is None,
            },
        decreases entries@.len() - i,
    {
        assert(all.take(i + 1).drop_last() =~= all.take(i as int));
        if same_text(entries[i].0.as_str(), name) {
            if found.is_some() {
                proof {
                    lemma_times_grow(all, name@, i + 1);
                }
                return Err("duplicate field `".to_string().concat(name).concat("`"));
            }
            found = Some(entries[i].1);
        }
        i += 1;
    }
    assert(all.take(i as int) =~= all);
    Ok(found)
}

proof fn lemma_times_grow(entries: Seq<Entry>, name: Seq<char>, n: int)
    requires
        0 <= n <= entries.len(),
    ensures
        times(entries.take(n), name) <= times(entries, name),
    decreases entries.len(),
{
    if n == entries.len() {
        assert(entries.take(n) =~= entries);
    } else {
        assert(entries.drop_last().take(n) =~= entries.take(n));
        lemma_times_grow(entries.drop_last(), name, n);
    }
}

fn complain_shape(text: &str, expected: &str) -> String {
    match parse_value(text) {
        Ok(value) => complain_kind(&value, expected),
        Err(message) => message,
    }
}

/// Looks the text of a member up.
pub(crate) fn find_text<'a>(shape: &RawShape<'a>, place: usize, name: &str) -> (found: Result<
    Option<&'a str>,
    String,
>)
    ensures
        match found {
            Ok(Some(text)) => member_text(shape.shape(), place as nat, name@) == Some(
                Some(text@),
            ),
            Ok(None) => member_text(shape.shape(), place as nat, name@) == Some(
                None::<Seq<char>>,
            ),
            Err(_) => member_text(shape.shape(), place as nat, name@) is None,
        },
{
    match shape {
        RawShape::Record(entries) => find_entry(entries, name),
        RawShape::List(items) => if place < items.len() {
            Ok(Some(items[place]))
        } else {
            Ok(None)
        },
        RawShape::Other(text) => Err(complain_shape(text, "a map")),
    }
}

/// Checks that a text can be a record with `count` members.
pub(crate) fn check_text(shape: &RawShape<'_>, count: usize, expected: &str) -> (result: Result<
    (),
    String,
>)
    ensures
        result is Ok <==> record_text(shape.shape(), count as nat),
{
    match shape {
        RawShape::Record(_) => Ok(()),
        RawShape::List(items) => if items.len() <= count {
            Ok(())
        } else {
            Err(complain_length(items.len(), "fewer elements in array"))
        },
        RawShape::Other(text) => Err(complain_shape(text, expected)),
    }
}

/// Reads a member that has to be there. `record` says what the members make up, for the complaint
/// about an array that is too short.
pub(crate) fn read_required_text<T: FromText>(
    shape: &RawShape<'_>,
    place: usize,
    name: &str,
    record: &str,
) -> (result: Result<T, String>)
    ensures
        decode::decoded(result, required_text::<T>(shape.shape(), place as nat, name@)),
{
    match find_text(shape, place, name) {
        Ok(Some(text)) => T::read_text(text),
        Ok(None) => match shape {
            RawShape::List(_) => Err(complain_length(place, record)),
            _ => Err(complain_missing(name)),
        },
        Err(message) => Err(message),
    }
}

/// Reads a member that need not be there.
pub(crate) fn read_optional_text<T: FromText>(
    shape: &RawShape<'_>,
    place: usize,
    name: &str,
    default: T,
) -> (result: Result<T, String>)
    ensures
        decode::decoded(
            result,
            optional_text::<T>(shape.shape(), place as nat, name@, default.deep_view()),
        ),
{
    match find_text(shape, place, name) {
        Ok(Some(text)) => T::read_text(text),
        Ok(None) => Ok(default),
        Err(message) => Err(message),
    }
}

proof fn lemma_bad_text_decides<T: FromText>(items: Seq<Seq<char>>, n: int)
    requires
        0 <= n <= items.len(),
        all_from_text::<T>(items.take(n)) is None,
    ensures
        all_from_text::<T>(items) is None,
    decreases items.len(),
{
    if n == items.len() {
        assert(items.take(n) =~= items);
    } else {
        assert(items.drop_last().take(n) =~= items.take(n));
        lemma_bad_text_decides::<T>(items.drop_last(), n);
    }
}

fn read_texts<T: FromText>(items: &Vec<&str>) -> (result: Result<Vec<T>, String>)
    ensures
        decode::decoded(result, all_from_text::<T>(items_view(items@))),
{
    let ghost all = items_view(items@);
    let mut values: Vec<T> = Vec::new();
    let mut i: usize = 0;
    assert(values.deep_view() =~= Seq::empty());
    while i < items.len()
        invariant
            i <= items@.len(),
            all == items_view(items@),
            all_from_text::<T>(all.take(i as int)) == Some(values.deep_view()),
        decreases items@.len() - i,
    {
        assert(all.take(i + 1).drop_last() =~= all.take(i as int));
        assert(all.take(i + 1).last() == items@[i as int]@);
        match T::read_text(items[i]) {
            Ok(value) => {
                let ghost before = values.deep_view();
                let ghost read = value.deep_view();
                values.push(value);
                assert(values.deep_view() =~= before.push(read));
            },
            Err(message) => {
                proof {
                    lemma_bad_text_decides::<T>(all, i + 1);
                }
                return Err(message);
            },
        }
        i += 1;
    }
    assert(all.take(i as int) =~= all);
    Ok(values)
}

/// Reads the document in a text that stands `depth` levels deep in another.
pub(crate) fn read_inner_document(text: &str, depth: usize) -> (result: Result<Value, String>)
    ensures
        match result {
            Ok(value) => inner_document(text@, depth as nat) == Some(json::value_json(value)),
            Err(_) => inner_document(text@, depth as nat) is None,
        },
    decreases depth,
{
    if depth == 0 {
        return parse_value(text);
    }
    let outer: String = "[".to_string().concat(text).concat("]");
    match read_inner_document(outer.as_str(), depth - 1) {
        Ok(value) => match open_value(&value) {
            JsonRef::Array(items) => if items.len() == 1 {
                Ok(clone_value(&items[0]))
            } else {
                Err("trailing characters".to_string())
            },
            _ => Err("trailing characters".to_string()),
        },
        Err(message) => Err(message),
    }
}

/// The value that a text stands for which holds no record.
pub open spec fn plain_from_text<T: FromJson>(text: Seq<char>) -> Option<<T as DeepView>::V> {
    match json::json_parse(text) {
        Ok(doc) => T::from_json(doc),
        Err(_) => None,
    }
}

fn read_plain<T: FromJson>(text: &str) -> (result: Result<T, String>)
    ensures
        decode::decoded(result, plain_from_text::<T>(text@)),
{
    match parse_value(text) {
        Ok(doc) => T::from_value(&doc),
        Err(message) => Err(message),
    }
}

impl FromText for String {
    open spec fn from_text(text: Seq<char>) -> Option<Seq<char>> {
        plain_from_text::<String>(text)
    }

    fn read_text(text: &str) -> (result: Result<String, String>) {
        read_plain(text)
    }
}

impl FromText for i64 {
    open spec fn from_text(text: Seq<char>) -> Option<i64> {
        plain_from_text::<i64>(text)
    }

    fn read_text(text: &str) -> (result: Result<i64, String>) {
        read_plain(text)
    }
}

impl<T: FromText> FromText for Option<T> {
    /// `null` stands for no value.
    open spec fn from_text(text: Seq<char>) -> Option<Option<<T as DeepView>::V>> {
        if is_null(text) {
            Some(None)
        } else {
            match T::from_text(text) {
                Some(value) => Some(Some(value)),
                None => None,
            }
        }
    }

    fn read_text(text: &str) -> (result: Result<Option<T>, String>) {
        if same_text(skip_blank(text), "null") {
            return Ok(None);
        }
        match T::read_text(text) {
            Ok(value) => Ok(Some(value)),
            Err(message) => Err(message),
        }
    }
}

impl<T: FromText> FromText for Vec<T> {
    open spec fn from_text(text: Seq<char>) -> Option<Seq<<T as DeepView>::V>> {
        match shape_of(text) {
            Shape::List(items) => all_from_text::<T>(items),
            _ => None,
        }
    }

    fn read_text(text: &str) -> (result: Result<Vec<T>, String>) {
        match open_text(text) {
            RawShape::List(items) => read_texts(&items),
            RawShape::Record(_) => Err("invalid type: map, expected a sequence".to_string()),
            RawShape::Other(text) => Err(complain_shape(text, "a sequence")),
        }
    }
}

} // verus!
