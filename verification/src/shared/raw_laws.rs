//! What holds of every text that records are read from.
use crate::shared::json;
use crate::shared::raw;
use crate::shared::raw::FromText;
use vstd::prelude::*;

verus! {

/// The four characters that may stand between the tokens of JSON: space, line feed, carriage return
/// and tab.
pub open spec fn is_gap(c: char) -> bool {
    let n = c as int;
    n == 32 || n == 10 || n == 13 || n == 9
}

/// Nothing but such characters.
pub open spec fn all_gap(s: Seq<char>) -> bool {
    forall|i: int| 0 <= i < s.len() ==> is_gap(#[trigger] s[i])
}

/// The text does not start with such a character.
pub open spec fn no_gap_first(s: Seq<char>) -> bool {
    s.len() > 0 ==> !is_gap(s[0])
}

proof fn lemma_led(s: Seq<char>)
    ensures
        ({
            let led = raw::without_blank(s);
            &&& led.len() <= s.len()
            &&& s == s.take(s.len() - led.len()) + led
            &&& all_gap(s.take(s.len() - led.len()))
            &&& no_gap_first(led)
        }),
    decreases s.len(),
{
    let led = raw::without_blank(s);
    let n = s.len() - led.len();
    if s.len() > 0 && raw::is_blank(s.first()) {
        let rest = s.drop_first();
        lemma_led(rest);
        assert forall|i: int| 0 <= i < n implies is_gap(#[trigger] s.take(n)[i]) by {
            if i > 0 {
                assert(rest.take(n - 1)[i - 1] == s[i]);
            }
        }
        assert(s =~= s.take(n) + led) by {
            assert(rest =~= rest.take(n - 1) + led);
            assert forall|i: int| 0 <= i < s.len() implies s[i] == (s.take(n) + led)[i] by {
                if i >= 1 {
                    assert(s[i] == rest[i - 1]);
                }
            }
        }
    } else {
        assert(s =~= s.take(0) + led);
    }
}

/// Gaps in front of a text are cut off, all of them and nothing else.
pub proof fn law_gaps_are_cut_off(front: Seq<char>, s: Seq<char>)
    requires
        all_gap(front),
        no_gap_first(s),
    ensures
        raw::without_blank(front + s) == s,
    decreases front.len(),
{
    if front.len() > 0 {
        assert(is_gap(front[0]));
        assert((front + s).drop_first() =~= front.drop_first() + s);
        assert forall|i: int| 0 <= i < front.drop_first().len() implies is_gap(
            #[trigger] front.drop_first()[i],
        ) by {
            assert(is_gap(front[i + 1]));
        }
        law_gaps_are_cut_off(front.drop_first(), s);
    } else {
        assert(front + s =~= s);
    }
}

/// A text with gaps in front of it is read as the text itself.
pub proof fn law_gaps_in_front_do_not_count(front: Seq<char>, s: Seq<char>)
    requires
        all_gap(front),
    ensures
        raw::shape_of(front + s) == raw::shape_of(s),
        raw::is_null(front + s) == raw::is_null(s),
{
    lemma_led(s);
    let led = raw::without_blank(s);
    let gaps = s.take(s.len() - led.len());
    let all = front + gaps;
    assert forall|i: int| 0 <= i < all.len() implies is_gap(#[trigger] all[i]) by {
        if i < front.len() {
            assert(is_gap(front[i]));
        } else {
            assert(is_gap(gaps[i - front.len()]));
        }
    }
    assert(front + s =~= all + led);
    law_gaps_are_cut_off(all, led);
}

/// A text says that there is nothing just where it is the word `null`, with or without gaps in front.
pub proof fn law_null_is_a_word(front: Seq<char>, s: Seq<char>)
    requires
        all_gap(front),
        no_gap_first(s),
    ensures
        raw::is_null(front + s) <==> s == "null"@,
{
    law_gaps_are_cut_off(front, s);
}

/// A member as it is written: its name, a colon and its value, with gaps before the name, before the
/// colon and after the value.
pub open spec fn member_written(
    lead: Seq<char>,
    name: Seq<char>,
    gap: Seq<char>,
    value: Seq<char>,
    end: Seq<char>,
    tail: Seq<char>,
) -> Seq<char> {
    lead + name + gap + seq![':'] + value + end + tail
}

/// The text starts with the member, and goes on with the tail. The JSON parser finds the name and the
/// value where they stand, and the name is a text that it reads as the name of the member.
pub open spec fn starts_with_member(text: Seq<char>, entry: raw::Entry, tail: Seq<char>) -> bool {
    exists|lead: Seq<char>, name: Seq<char>, gap: Seq<char>, end: Seq<char>|
        {
            &&& all_gap(lead) && all_gap(gap) && all_gap(end) && no_gap_first(tail)
            &&& text == #[trigger] member_written(lead, name, gap, entry.1, end, tail)
            &&& name.len() > 0 && no_gap_first(name) && entry.1.len() > 0
            &&& json::json_parse(name) == Ok::<json::Json, Seq<char>>(json::Json::Str(entry.0))
            &&& raw::value_head(name + gap + seq![':'] + entry.1 + end + tail) == Some(name)
            &&& raw::value_head(entry.1 + end + tail) == Some(entry.1)
        }
}

/// A comma, and more.
pub open spec fn after_comma(more: Seq<char>) -> Seq<char> {
    seq![','] + more
}

/// The text lists these members, with commas between them and a brace behind them, and goes on with
/// the rest.
pub open spec fn lists_members(text: Seq<char>, entries: Seq<raw::Entry>, rest: Seq<char>) -> bool
    decreases entries.len(),
{
    if entries.len() == 0 {
        false
    } else if entries.len() == 1 {
        starts_with_member(text, entries[0], seq!['}'] + rest)
    } else {
        exists|more: Seq<char>|
            lists_members(more, entries.drop_first(), rest) && starts_with_member(
                text,
                entries[0],
                #[trigger] after_comma(more),
            )
    }
}

/// The values that the JSON parser finds are what the text starts with.
pub open spec fn heads_are_found(text: Seq<char>) -> bool {
    raw::value_head(text) is Some ==> raw::value_head(text)->Some_0.is_prefix_of(text)
}

proof fn lemma_member(text: Seq<char>)
    requires
        raw::first_entry(text) is Some,
        forall|t: Seq<char>| #[trigger] heads_are_found(t),
    ensures
        starts_with_member(
            text,
            raw::first_entry(text)->Some_0.0,
            raw::first_entry(text)->Some_0.1,
        ),
{
    lemma_led(text);
    let t = raw::without_blank(text);
    let lead = text.take(text.len() - t.len());
    let (name, rest) = raw::after_value(t)->Some_0;
    assert(heads_are_found(t));
    assert(t =~= name + rest);
    lemma_led(rest);
    let colon = raw::without_blank(rest);
    let gap = rest.take(rest.len() - colon.len());
    let body = colon.skip(1);
    assert(colon =~= seq![':'] + body);
    let (value, after) = raw::after_value(body)->Some_0;
    assert(heads_are_found(body));
    assert(body =~= value + after);
    lemma_led(after);
    let tail = raw::without_blank(after);
    let end = after.take(after.len() - tail.len());
    assert(after =~= end + tail);
    assert(body =~= value + end + tail);
    assert(t =~= name + gap + seq![':'] + value + end + tail);
    assert(text =~= member_written(lead, name, gap, value, end, tail));
    assert(name[0] == t[0]);
    let entry = raw::first_entry(text)->Some_0.0;
    assert(entry.1 == value);
    assert(raw::value_head(name + gap + seq![':'] + value + end + tail) == Some(name));
    assert(raw::value_head(value + end + tail) == Some(value));
}

proof fn lemma_member_found(text: Seq<char>, entry: raw::Entry, tail: Seq<char>)
    requires
        starts_with_member(text, entry, tail),
    ensures
        raw::first_entry(text) == Some((entry, tail)),
{
    let (lead, name, gap, end) = choose|
        lead: Seq<char>,
        name: Seq<char>,
        gap: Seq<char>,
        end: Seq<char>,
    |
        {
            &&& all_gap(lead) && all_gap(gap) && all_gap(end) && no_gap_first(tail)
            &&& text == #[trigger] member_written(lead, name, gap, entry.1, end, tail)
            &&& name.len() > 0 && no_gap_first(name) && entry.1.len() > 0
            &&& json::json_parse(name) == Ok::<json::Json, Seq<char>>(json::Json::Str(entry.0))
            &&& raw::value_head(name + gap + seq![':'] + entry.1 + end + tail) == Some(name)
            &&& raw::value_head(entry.1 + end + tail) == Some(entry.1)
        };
    let value = entry.1;
    let body = value + end + tail;
    let t = name + gap + seq![':'] + value + end + tail;
    assert(text =~= lead + t);
    assert(t[0] == name[0]);
    law_gaps_are_cut_off(lead, t);
    let rest = t.skip(name.len() as int);
    let colon = seq![':'] + body;
    assert(rest =~= gap + colon);
    law_gaps_are_cut_off(gap, colon);
    assert(colon.skip(1) =~= body);
    let after = body.skip(value.len() as int);
    assert(after =~= end + tail);
    law_gaps_are_cut_off(end, tail);
}

proof fn lemma_members(text: Seq<char>, found: Seq<raw::Entry>)
    requires
        raw::entries_from(text, found) is Some,
        forall|t: Seq<char>| #[trigger] heads_are_found(t),
    ensures
        ({
            let (all, rest) = raw::entries_from(text, found)->Some_0;
            &&& all.len() > found.len()
            &&& all.take(found.len() as int) == found
            &&& lists_members(text, all.skip(found.len() as int), rest)
        }),
    decreases text.len(),
{
    let (entry, tail) = raw::first_entry(text)->Some_0;
    let (all, rest) = raw::entries_from(text, found)->Some_0;
    let n = found.len() as int;
    raw::lemma_first_entry(text);
    lemma_member(text);
    if raw::starts(tail, ',') {
        let more = tail.skip(1);
        lemma_members(more, found.push(entry));
        let listed = all.skip(n);
        assert(listed.drop_first() =~= all.skip(n + 1));
        assert(all.take(n + 1)[n] == entry);
        assert(listed[0] == entry);
        assert(all.take(n) =~= found) by {
            assert forall|i: int| 0 <= i < n implies all[i] == found[i] by {
                assert(all.take(n + 1)[i] == found.push(entry)[i]);
            }
        }
        assert(tail =~= after_comma(more));
        assert(lists_members(more, listed.drop_first(), rest));
    } else {
        assert(tail =~= seq!['}'] + rest);
        assert(all.skip(n) =~= seq![entry]);
        assert(all.take(n) =~= found);
    }
}

proof fn lemma_members_found(
    text: Seq<char>,
    entries: Seq<raw::Entry>,
    rest: Seq<char>,
    found: Seq<raw::Entry>,
)
    requires
        lists_members(text, entries, rest),
    ensures
        raw::entries_from(text, found) == Some((found + entries, rest)),
    decreases entries.len(),
{
    if entries.len() == 1 {
        let tail = seq!['}'] + rest;
        lemma_member_found(text, entries[0], tail);
        assert(found.push(entries[0]) =~= found + entries);
        assert(tail.skip(1) =~= rest);
        assert(!raw::starts(tail, ','));
    } else {
        let more = choose|more: Seq<char>|
            lists_members(more, entries.drop_first(), rest) && starts_with_member(
                text,
                entries[0],
                #[trigger] after_comma(more),
            );
        let tail = after_comma(more);
        lemma_member_found(text, entries[0], tail);
        raw::lemma_first_entry(text);
        assert(tail.skip(1) =~= more);
        lemma_members_found(more, entries.drop_first(), rest, found.push(entries[0]));
        assert(found.push(entries[0]) + entries.drop_first() =~= found + entries);
    }
}

/// The text is an object with these members, written in this order, and with nothing around it but
/// gaps.
pub open spec fn is_object_with(text: Seq<char>, entries: Seq<raw::Entry>) -> bool {
    exists|lead: Seq<char>, inside: Seq<char>, rest: Seq<char>|
        {
            &&& all_gap(lead) && all_gap(rest)
            &&& text == #[trigger] braced(lead, inside, rest)
            &&& entries.len() == 0 ==> all_gap(inside)
            &&& entries.len() > 0 ==> lists_members(inside + seq!['}'] + rest, entries, rest)
                && !starts_with_brace(inside + seq!['}'] + rest)
        }
}

/// The text starts with a closing brace, with or without gaps in front.
pub open spec fn starts_with_brace(text: Seq<char>) -> bool {
    exists|gap: Seq<char>, rest: Seq<char>|
        all_gap(gap) && text == #[trigger] closed_brace(gap, rest)
}

/// A closing brace, with gaps in front.
pub open spec fn closed_brace(gap: Seq<char>, rest: Seq<char>) -> Seq<char> {
    gap + seq!['}'] + rest
}

/// What stands inside of braces.
pub open spec fn braced(lead: Seq<char>, inside: Seq<char>, rest: Seq<char>) -> Seq<char> {
    lead + seq!['{'] + inside + seq!['}'] + rest
}

proof fn lemma_lists_end(text: Seq<char>, entries: Seq<raw::Entry>, rest: Seq<char>)
    requires
        lists_members(text, entries, rest),
    ensures
        text.len() >= 1 + rest.len(),
        text.skip(text.len() - rest.len() - 1) == seq!['}'] + rest,
    decreases entries.len(),
{
    if entries.len() == 1 {
        let tail = seq!['}'] + rest;
        lemma_member_ends(text, entries[0], tail);
        assert(text.skip(text.len() - rest.len() - 1) =~= tail);
    } else {
        let more = choose|more: Seq<char>|
            lists_members(more, entries.drop_first(), rest) && starts_with_member(
                text,
                entries[0],
                #[trigger] after_comma(more),
            );
        lemma_lists_end(more, entries.drop_first(), rest);
        let tail = after_comma(more);
        lemma_member_ends(text, entries[0], tail);
        let n = text.len() - tail.len();
        let m = more.len() - rest.len() - 1;
        assert forall|i: int| 0 <= i < rest.len() + 1 implies text.skip(
            text.len() - rest.len() - 1,
        )[i] == (seq!['}'] + rest)[i] by {
            assert(more.skip(m)[i] == (seq!['}'] + rest)[i]);
            assert(more[m + i] == tail[m + i + 1]);
            assert(text.skip(n)[m + i + 1] == tail[m + i + 1]);
        }
        assert(text.skip(text.len() - rest.len() - 1) =~= seq!['}'] + rest);
    }
}

proof fn lemma_member_ends(text: Seq<char>, entry: raw::Entry, tail: Seq<char>)
    requires
        starts_with_member(text, entry, tail),
    ensures
        text.len() >= tail.len(),
        text.skip(text.len() - tail.len()) == tail,
{
    let (lead, name, gap, end) = choose|
        lead: Seq<char>,
        name: Seq<char>,
        gap: Seq<char>,
        end: Seq<char>,
    |
        {
            &&& all_gap(lead) && all_gap(gap) && all_gap(end) && no_gap_first(tail)
            &&& text == #[trigger] member_written(lead, name, gap, entry.1, end, tail)
            &&& name.len() > 0 && no_gap_first(name) && entry.1.len() > 0
            &&& json::json_parse(name) == Ok::<json::Json, Seq<char>>(json::Json::Str(entry.0))
            &&& raw::value_head(name + gap + seq![':'] + entry.1 + end + tail) == Some(name)
            &&& raw::value_head(entry.1 + end + tail) == Some(entry.1)
        };
    assert(text.skip(text.len() - tail.len()) =~= tail);
}

/// A text is taken apart into the members that it is written with, all of them, in their order, and
/// into no others, provided that the JSON parser cuts values off where they stand.
pub proof fn law_objects_are_taken_apart(text: Seq<char>, entries: Seq<raw::Entry>)
    requires
        forall|t: Seq<char>| #[trigger] heads_are_found(t),
    ensures
        raw::shape_of(text) == raw::Shape::Record(entries) <==> is_object_with(text, entries),
{
    if raw::shape_of(text) == raw::Shape::Record(entries) {
        lemma_led(text);
        let t = raw::without_blank(text);
        let lead = text.take(text.len() - t.len());
        let body = t.skip(1);
        let start = raw::without_blank(body);
        lemma_led(body);
        let gap = body.take(body.len() - start.len());
        assert(t =~= seq!['{'] + body);
        let (all, rest) = raw::entries_of(body)->Some_0;
        lemma_led(rest);
        let left = raw::without_blank(rest);
        assert(left.len() == 0);
        assert(rest =~= rest.take(rest.len() - left.len()));
        assert(all_gap(rest));
        if raw::starts(start, '}') {
            assert(start =~= seq!['}'] + rest);
            assert(text =~= braced(lead, gap, rest));
            assert(is_object_with(text, entries));
        } else {
            lemma_members(start, Seq::empty());
            assert(all.skip(0) =~= all);
            lemma_members_after_gap(gap, start, all, rest);
            lemma_lists_end(body, all, rest);
            let inside = body.take(body.len() - rest.len() - 1);
            assert(body =~= inside + seq!['}'] + rest) by {
                assert(body =~= inside + body.skip(body.len() - rest.len() - 1));
                assert(body.skip(body.len() - rest.len() - 1) == seq!['}'] + rest);
            }
            assert(text =~= braced(lead, inside, rest));
            if starts_with_brace(body) {
                let (front, after) = choose|front: Seq<char>, after: Seq<char>|
                    all_gap(front) && body == #[trigger] closed_brace(front, after);
                let brace = seq!['}'] + after;
                assert(body =~= front + brace);
                law_gaps_are_cut_off(front, brace);
                assert(start == brace);
            }
            assert(is_object_with(text, entries));
        }
    }
    if is_object_with(text, entries) {
        let (lead, inside, rest) = choose|lead: Seq<char>, inside: Seq<char>, rest: Seq<char>|
            {
                &&& all_gap(lead) && all_gap(rest)
                &&& text == #[trigger] braced(lead, inside, rest)
                &&& entries.len() == 0 ==> all_gap(inside)
                &&& entries.len() > 0 ==> lists_members(inside + seq!['}'] + rest, entries, rest)
                    && !starts_with_brace(inside + seq!['}'] + rest)
            };
        let body = inside + seq!['}'] + rest;
        let t = seq!['{'] + body;
        assert(text =~= lead + t);
        law_gaps_are_cut_off(lead, t);
        assert(t.skip(1) =~= body);
        law_gaps_are_cut_off(rest, Seq::empty());
        assert(rest + Seq::<char>::empty() =~= rest);
        if entries.len() == 0 {
            let end = seq!['}'] + rest;
            assert(body =~= inside + end);
            law_gaps_are_cut_off(inside, end);
            assert(end.skip(1) =~= rest);
            assert(entries =~= Seq::empty());
        } else {
            lemma_led(body);
            let start = raw::without_blank(body);
            let gap = body.take(body.len() - start.len());
            lemma_members_before_gap(gap, start, entries, rest);
            lemma_members_found(start, entries, rest, Seq::empty());
            assert(Seq::<raw::Entry>::empty() + entries =~= entries);
            if raw::starts(start, '}') {
                assert(body =~= closed_brace(gap, start.skip(1)));
            }
        }
    }
}

proof fn lemma_member_after_gap(
    gap: Seq<char>,
    text: Seq<char>,
    entry: raw::Entry,
    tail: Seq<char>,
)
    requires
        all_gap(gap),
        starts_with_member(text, entry, tail),
    ensures
        starts_with_member(gap + text, entry, tail),
{
    let (lead, name, between, end) = choose|
        lead: Seq<char>,
        name: Seq<char>,
        between: Seq<char>,
        end: Seq<char>,
    |
        {
            &&& all_gap(lead) && all_gap(between) && all_gap(end) && no_gap_first(tail)
            &&& text == #[trigger] member_written(lead, name, between, entry.1, end, tail)
            &&& name.len() > 0 && no_gap_first(name) && entry.1.len() > 0
            &&& json::json_parse(name) == Ok::<json::Json, Seq<char>>(json::Json::Str(entry.0))
            &&& raw::value_head(name + between + seq![':'] + entry.1 + end + tail) == Some(name)
            &&& raw::value_head(entry.1 + end + tail) == Some(entry.1)
        };
    let whole = gap + lead;
    assert forall|i: int| 0 <= i < whole.len() implies is_gap(#[trigger] whole[i]) by {
        if i < gap.len() {
            assert(is_gap(gap[i]));
        } else {
            assert(is_gap(lead[i - gap.len()]));
        }
    }
    assert(gap + text =~= member_written(whole, name, between, entry.1, end, tail));
}

proof fn lemma_members_after_gap(
    gap: Seq<char>,
    text: Seq<char>,
    entries: Seq<raw::Entry>,
    rest: Seq<char>,
)
    requires
        all_gap(gap),
        lists_members(text, entries, rest),
    ensures
        lists_members(gap + text, entries, rest),
{
    if entries.len() == 1 {
        lemma_member_after_gap(gap, text, entries[0], seq!['}'] + rest);
    } else {
        let more = choose|more: Seq<char>|
            lists_members(more, entries.drop_first(), rest) && starts_with_member(
                text,
                entries[0],
                #[trigger] after_comma(more),
            );
        lemma_member_after_gap(gap, text, entries[0], after_comma(more));
        assert(lists_members(more, entries.drop_first(), rest));
    }
}

proof fn lemma_member_before_gap(
    gap: Seq<char>,
    text: Seq<char>,
    entry: raw::Entry,
    tail: Seq<char>,
)
    requires
        all_gap(gap),
        no_gap_first(text),
        starts_with_member(gap + text, entry, tail),
    ensures
        starts_with_member(text, entry, tail),
{
    let whole = gap + text;
    let (lead, name, between, end) = choose|
        lead: Seq<char>,
        name: Seq<char>,
        between: Seq<char>,
        end: Seq<char>,
    |
        {
            &&& all_gap(lead) && all_gap(between) && all_gap(end) && no_gap_first(tail)
            &&& whole == #[trigger] member_written(lead, name, between, entry.1, end, tail)
            &&& name.len() > 0 && no_gap_first(name) && entry.1.len() > 0
            &&& json::json_parse(name) == Ok::<json::Json, Seq<char>>(json::Json::Str(entry.0))
            &&& raw::value_head(name + between + seq![':'] + entry.1 + end + tail) == Some(name)
            &&& raw::value_head(entry.1 + end + tail) == Some(entry.1)
        };
    let t = name + between + seq![':'] + entry.1 + end + tail;
    assert(whole =~= lead + t);
    assert(t[0] == name[0]);
    law_gaps_are_cut_off(lead, t);
    law_gaps_are_cut_off(gap, text);
    assert(text == t);
    let none = Seq::<char>::empty();
    assert(text =~= member_written(none, name, between, entry.1, end, tail));
}

proof fn lemma_members_before_gap(
    gap: Seq<char>,
    text: Seq<char>,
    entries: Seq<raw::Entry>,
    rest: Seq<char>,
)
    requires
        all_gap(gap),
        no_gap_first(text),
        lists_members(gap + text, entries, rest),
    ensures
        lists_members(text, entries, rest),
{
    if entries.len() == 1 {
        lemma_member_before_gap(gap, text, entries[0], seq!['}'] + rest);
    } else {
        let more = choose|more: Seq<char>|
            lists_members(more, entries.drop_first(), rest) && starts_with_member(
                gap + text,
                entries[0],
                #[trigger] after_comma(more),
            );
        lemma_member_before_gap(gap, text, entries[0], after_comma(more));
        assert(lists_members(more, entries.drop_first(), rest));
    }
}

/// The text starts with the item, and goes on with gaps and the tail. The JSON parser finds the item
/// where it stands.
pub open spec fn starts_with_item(text: Seq<char>, item: Seq<char>, tail: Seq<char>) -> bool {
    exists|end: Seq<char>|
        {
            &&& all_gap(end) && no_gap_first(tail)
            &&& text == #[trigger] item_written(item, end, tail)
            &&& item.len() > 0
            &&& raw::value_head(text) == Some(item)
        }
}

/// An item as it is written, with gaps behind it.
pub open spec fn item_written(item: Seq<char>, end: Seq<char>, tail: Seq<char>) -> Seq<char> {
    item + end + tail
}

/// The text lists these items, with commas between them and a bracket behind them, and goes on with
/// the rest.
pub open spec fn lists_items(text: Seq<char>, items: Seq<Seq<char>>, rest: Seq<char>) -> bool
    decreases items.len(),
{
    if items.len() == 0 {
        false
    } else if items.len() == 1 {
        starts_with_item(text, items[0], seq![']'] + rest)
    } else {
        exists|more: Seq<char>|
            lists_items(more, items.drop_first(), rest) && starts_with_item(
                text,
                items[0],
                #[trigger] after_comma(more),
            )
    }
}

proof fn lemma_items(text: Seq<char>, found: Seq<Seq<char>>)
    requires
        raw::items_from(text, found) is Some,
        forall|t: Seq<char>| #[trigger] heads_are_found(t),
    ensures
        ({
            let (all, rest) = raw::items_from(text, found)->Some_0;
            &&& all.len() > found.len()
            &&& all.take(found.len() as int) == found
            &&& lists_items(text, all.skip(found.len() as int), rest)
        }),
    decreases text.len(),
{
    let (item, after) = raw::after_value(text)->Some_0;
    let (all, rest) = raw::items_from(text, found)->Some_0;
    let n = found.len() as int;
    let tail = raw::without_blank(after);
    lemma_led(after);
    let end = after.take(after.len() - tail.len());
    assert(heads_are_found(text));
    assert(text =~= item + after);
    assert(after =~= end + tail);
    assert(text =~= item_written(item, end, tail));
    assert(starts_with_item(text, item, tail));
    if raw::starts(tail, ',') {
        let more = tail.skip(1);
        lemma_items(more, found.push(item));
        let listed = all.skip(n);
        assert(listed.drop_first() =~= all.skip(n + 1));
        assert(all.take(n + 1)[n] == item);
        assert(listed[0] == item);
        assert(all.take(n) =~= found) by {
            assert forall|i: int| 0 <= i < n implies all[i] == found[i] by {
                assert(all.take(n + 1)[i] == found.push(item)[i]);
            }
        }
        assert(tail =~= after_comma(more));
        assert(lists_items(more, listed.drop_first(), rest));
    } else {
        assert(tail =~= seq![']'] + rest);
        assert(all.skip(n) =~= seq![item]);
        assert(all.take(n) =~= found);
    }
}

proof fn lemma_item_found(text: Seq<char>, item: Seq<char>, tail: Seq<char>)
    requires
        starts_with_item(text, item, tail),
    ensures
        raw::after_value(text) is Some,
        raw::after_value(text)->Some_0.0 == item,
        raw::without_blank(raw::after_value(text)->Some_0.1) == tail,
        tail.len() < text.len(),
{
    let end = choose|end: Seq<char>|
        {
            &&& all_gap(end) && no_gap_first(tail)
            &&& text == #[trigger] item_written(item, end, tail)
            &&& item.len() > 0
            &&& raw::value_head(text) == Some(item)
        };
    assert(text.skip(item.len() as int) =~= end + tail);
    law_gaps_are_cut_off(end, tail);
}

proof fn lemma_items_found(
    text: Seq<char>,
    items: Seq<Seq<char>>,
    rest: Seq<char>,
    found: Seq<Seq<char>>,
)
    requires
        lists_items(text, items, rest),
    ensures
        raw::items_from(text, found) == Some((found + items, rest)),
    decreases items.len(),
{
    if items.len() == 1 {
        let tail = seq![']'] + rest;
        lemma_item_found(text, items[0], tail);
        assert(found.push(items[0]) =~= found + items);
        assert(tail.skip(1) =~= rest);
        assert(!raw::starts(tail, ','));
    } else {
        let more = choose|more: Seq<char>|
            lists_items(more, items.drop_first(), rest) && starts_with_item(
                text,
                items[0],
                #[trigger] after_comma(more),
            );
        let tail = after_comma(more);
        lemma_item_found(text, items[0], tail);
        assert(tail.skip(1) =~= more);
        lemma_items_found(more, items.drop_first(), rest, found.push(items[0]));
        assert(found.push(items[0]) + items.drop_first() =~= found + items);
    }
}

/// The text is an array with these items, written in this order, and with nothing around it but gaps.
pub open spec fn is_array_with(text: Seq<char>, items: Seq<Seq<char>>) -> bool {
    exists|lead: Seq<char>, gap: Seq<char>, inside: Seq<char>, rest: Seq<char>|
        {
            &&& all_gap(lead) && all_gap(gap)
            &&& text == #[trigger] bracketed(lead, gap, inside)
            &&& #[trigger] ends_as_array(inside, items, rest)
        }
}

/// The text lists these items up to a closing bracket, and goes on with nothing but gaps.
pub open spec fn ends_as_array(
    inside: Seq<char>,
    items: Seq<Seq<char>>,
    rest: Seq<char>,
) -> bool {
    &&& all_gap(rest) && no_gap_first(inside)
    &&& items.len() == 0 ==> inside == seq![']'] + rest
    &&& items.len() > 0 ==> lists_items(inside, items, rest) && inside[0] != ']'
}

/// What stands behind an opening bracket.
pub open spec fn bracketed(lead: Seq<char>, gap: Seq<char>, inside: Seq<char>) -> Seq<char> {
    lead + seq!['['] + gap + inside
}

/// A text is taken apart into the items that it is written with, all of them, in their order, and into
/// no others, provided that the JSON parser cuts values off where they stand.
pub proof fn law_arrays_are_taken_apart(text: Seq<char>, items: Seq<Seq<char>>)
    requires
        forall|t: Seq<char>| #[trigger] heads_are_found(t),
    ensures
        raw::shape_of(text) == raw::Shape::List(items) <==> is_array_with(text, items),
{
    if raw::shape_of(text) == raw::Shape::List(items) {
        lemma_led(text);
        let t = raw::without_blank(text);
        let lead = text.take(text.len() - t.len());
        let body = t.skip(1);
        let inside = raw::without_blank(body);
        lemma_led(body);
        let gap = body.take(body.len() - inside.len());
        assert(t =~= seq!['['] + body);
        let (all, rest) = raw::items_of(body)->Some_0;
        lemma_led(rest);
        let left = raw::without_blank(rest);
        assert(left.len() == 0);
        assert(rest =~= rest.take(rest.len() - left.len()));
        assert(text =~= bracketed(lead, gap, inside));
        if raw::starts(inside, ']') {
            assert(inside =~= seq![']'] + rest);
        } else {
            lemma_items(inside, Seq::empty());
            assert(all.skip(0) =~= all);
            assert(raw::after_value(inside) is Some);
        }
        assert(ends_as_array(inside, items, rest));
        assert(is_array_with(text, items));
    }
    if is_array_with(text, items) {
        let (lead, gap, inside, rest) = choose|
            lead: Seq<char>,
            gap: Seq<char>,
            inside: Seq<char>,
            rest: Seq<char>,
        |
            {
                &&& all_gap(lead) && all_gap(gap)
                &&& text == #[trigger] bracketed(lead, gap, inside)
                &&& #[trigger] ends_as_array(inside, items, rest)
            };
        let body = gap + inside;
        let t = seq!['['] + body;
        assert(text =~= lead + t);
        law_gaps_are_cut_off(lead, t);
        assert(t.skip(1) =~= body);
        law_gaps_are_cut_off(gap, inside);
        law_gaps_are_cut_off(rest, Seq::empty());
        assert(rest + Seq::<char>::empty() =~= rest);
        if items.len() == 0 {
            assert(inside.skip(1) =~= rest);
            assert(items =~= Seq::empty());
        } else {
            lemma_items_found(inside, items, rest, Seq::empty());
            assert(Seq::<Seq<char>>::empty() + items =~= items);
        }
    }
}

/// A member is written more than once.
pub open spec fn written_twice(entries: Seq<raw::Entry>, name: Seq<char>) -> bool {
    exists|i: int, j: int|
        0 <= i < j < entries.len() && (#[trigger] entries[i]).0 == name && (
        #[trigger] entries[j]).0 == name
}

/// A member is written.
pub open spec fn written(entries: Seq<raw::Entry>, name: Seq<char>) -> bool {
    exists|i: int| 0 <= i < entries.len() && (#[trigger] entries[i]).0 == name
}

proof fn lemma_times(entries: Seq<raw::Entry>, name: Seq<char>)
    ensures
        raw::times(entries, name) == 0 <==> !written(entries, name),
        raw::times(entries, name) <= 1 <==> !written_twice(entries, name),
        raw::last_text(entries, name) is Some <==> written(entries, name),
        forall|i: int|
            0 <= i < entries.len() && (#[trigger] entries[i]).0 == name && !written_twice(
                entries,
                name,
            ) ==> raw::last_text(entries, name) == Some(entries[i].1),
    decreases entries.len(),
{
    if entries.len() > 0 {
        let before = entries.drop_last();
        let n = entries.len() - 1;
        lemma_times(before, name);
        assert(entries.last() == entries[n]);
        assert forall|i: int| 0 <= i < n implies before[i] == #[trigger] entries[i] by {}
        if written(before, name) {
            let i = choose|i: int| 0 <= i < before.len() && (#[trigger] before[i]).0 == name;
            assert(entries[i].0 == name);
            if entries[n].0 == name {
                assert(written_twice(entries, name));
            }
        }
        if written_twice(before, name) {
            let (i, j) = choose|i: int, j: int|
                0 <= i < j < before.len() && (#[trigger] before[i]).0 == name && (
                #[trigger] before[j]).0 == name;
            assert(entries[i].0 == name && entries[j].0 == name);
        }
        if written_twice(entries, name) {
            let (i, j) = choose|i: int, j: int|
                0 <= i < j < entries.len() && (#[trigger] entries[i]).0 == name && (
                #[trigger] entries[j]).0 == name;
            assert(before[i].0 == name);
            if j < n {
                assert(before[j].0 == name);
            }
        }
        if written(entries, name) {
            let i = choose|i: int| 0 <= i < entries.len() && (#[trigger] entries[i]).0 == name;
            if i < n {
                assert(before[i].0 == name);
            }
        }
    }
}

/// The text that stands in a record under that name, or at that place. There is none where nothing
/// stands there.
pub open spec fn stands(shape: raw::Shape, place: int, name: Seq<char>, text: Seq<char>) -> bool {
    match shape {
        raw::Shape::Record(entries) => exists|i: int|
            0 <= i < entries.len() && #[trigger] entries[i] == (name, text),
        raw::Shape::List(items) => 0 <= place < items.len() && items[place] == text,
        raw::Shape::Other => false,
    }
}

/// Nothing stands in a record under that name, or at that place.
pub open spec fn stands_nothing(shape: raw::Shape, place: int, name: Seq<char>) -> bool {
    match shape {
        raw::Shape::Record(entries) => !written(entries, name),
        raw::Shape::List(items) => place >= items.len(),
        raw::Shape::Other => false,
    }
}

/// The text of a member is what stands in the record under its name or at its place. There is none
/// where nothing stands there, and no answer just where the member is written twice, or there is no
/// record.
pub proof fn law_members_are_found_where_they_stand(
    shape: raw::Shape,
    place: nat,
    name: Seq<char>,
    text: Seq<char>,
)
    ensures
        ({
            let found = raw::member_text(shape, place, name);
            let twice = shape is Record && written_twice(shape->Record_0, name);
            &&& found is None <==> shape is Other || twice
            &&& found == Some(None::<Seq<char>>) <==> stands_nothing(shape, place as int, name)
            &&& found == Some(Some(text)) <==> stands(shape, place as int, name, text) && !twice
        }),
{
    if shape is Record {
        let entries = shape->Record_0;
        lemma_times(entries, name);
        if stands(shape, place as int, name, text) {
            let i = choose|i: int| 0 <= i < entries.len() && #[trigger] entries[i] == (name, text);
            assert(entries[i].0 == name);
        }
        if written_twice(entries, name) {
            let (i, j) = choose|i: int, j: int|
                0 <= i < j < entries.len() && (#[trigger] entries[i]).0 == name && (
                #[trigger] entries[j]).0 == name;
            assert(written(entries, name));
        }
        if raw::member_text(shape, place, name) == Some(Some(text)) {
            let i = choose|i: int| 0 <= i < entries.len() && (#[trigger] entries[i]).0 == name;
            assert(raw::last_text(entries, name) == Some(entries[i].1));
            assert(entries[i] == (name, text));
        }
    }
}

/// A text in so many brackets.
pub open spec fn in_brackets(text: Seq<char>, depth: nat) -> Seq<char>
    decreases depth,
{
    if depth == 0 {
        text
    } else {
        in_brackets(seq!['['] + text + seq![']'], (depth - 1) as nat)
    }
}

/// A document in so many arrays.
pub open spec fn in_arrays(doc: json::Json, depth: nat) -> json::Json
    decreases depth,
{
    if depth == 0 {
        doc
    } else {
        in_arrays(json::Json::Array(seq![doc]), (depth - 1) as nat)
    }
}

/// The document in a text that stands so deep in another is the one that the JSON parser finds there:
/// in the text in as many brackets.
pub proof fn law_inner_documents_are_read_in_place(text: Seq<char>, depth: nat, doc: json::Json)
    ensures
        raw::inner_document(text, depth) == Some(doc) <==> json::json_parse(
            in_brackets(text, depth),
        ) == Ok::<json::Json, Seq<char>>(in_arrays(doc, depth)),
    decreases depth,
{
    if depth > 0 {
        reveal_strlit("[");
        reveal_strlit("]");
        assert("["@ + text + "]"@ =~= seq!['['] + text + seq![']']);
        let outer = seq!['['] + text + seq![']'];
        law_inner_documents_are_read_in_place(
            outer,
            (depth - 1) as nat,
            json::Json::Array(seq![doc]),
        );
        match raw::inner_document(outer, (depth - 1) as nat) {
            Some(json::Json::Array(items)) => {
                if items.len() == 1 && items[0] == doc {
                    assert(items =~= seq![doc]);
                }
            },
            _ => {},
        }
    }
}

/// The items of an array are read where each can be, and then one by one, in their order.
pub proof fn law_items_are_read_one_by_one<T: FromText>(items: Seq<Seq<char>>)
    ensures
        ({
            let read = raw::all_from_text::<T>(items);
            &&& read is Some <==> forall|i: int|
                0 <= i < items.len() ==> T::from_text(#[trigger] items[i]) is Some
            &&& read matches Some(values) ==> {
                &&& values.len() == items.len()
                &&& forall|i: int|
                    0 <= i < items.len() ==> T::from_text(#[trigger] items[i]) == Some(values[i])
            }
        }),
    decreases items.len(),
{
    if items.len() > 0 {
        let before = items.drop_last();
        law_items_are_read_one_by_one::<T>(before);
        assert forall|i: int| 0 <= i < before.len() implies before[i] == #[trigger] items[i] by {}
        let last = items.len() - 1;
        assert(items.last() == items[last]);
        let read = raw::all_from_text::<T>(items);
        if read is Some {
            assert forall|i: int| 0 <= i < items.len() implies T::from_text(#[trigger] items[i])
                == Some(read->Some_0[i]) by {
                if i < last {
                    assert(T::from_text(before[i]) is Some);
                }
            }
        } else if forall|i: int| 0 <= i < items.len() ==> T::from_text(#[trigger] items[i]) is Some {
            assert forall|i: int| 0 <= i < before.len() implies T::from_text(
                #[trigger] before[i],
            ) is Some by {
                assert(T::from_text(items[i]) is Some);
            }
            assert(T::from_text(items[last]) is Some);
        }
    }
}

/// A text and an integer are read from a text that the JSON parser reads as one; `null` stands for no
/// value, and a list is an array.
pub proof fn law_plain_texts_are_read_as_they_are(text: Seq<char>)
    ensures
        ({
            let parsed = json::json_parse(text);
            &&& String::from_text(text) == (if parsed is Ok && parsed->Ok_0 is Str {
                Some(parsed->Ok_0->Str_0)
            } else {
                None
            })
            &&& i64::from_text(text) == (if parsed is Ok && parsed->Ok_0 is Number {
                json::number_i64(parsed->Ok_0->Number_0)
            } else {
                None
            })
        }),
{
}

/// A text that says `null` stands for no value, and any other for the value that it stands for.
pub proof fn law_null_texts_stand_for_no_value<T: FromText>(text: Seq<char>)
    ensures
        raw::is_null(text) ==> Option::<T>::from_text(text) == Some(None::<<T as DeepView>::V>),
        !raw::is_null(text) ==> (Option::<T>::from_text(text) is Some <==> T::from_text(text)
            is Some),
        !raw::is_null(text) && T::from_text(text) is Some ==> Option::<T>::from_text(text) == Some(
            T::from_text(text),
        ),
        !(raw::shape_of(text) is List) ==> Vec::<T>::from_text(text) is None,
        raw::shape_of(text) is List ==> Vec::<T>::from_text(text) == raw::all_from_text::<T>(
            raw::shape_of(text)->List_0,
        ),
{
}

} // verus!
