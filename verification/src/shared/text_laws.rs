//! What holds of every text that is compared or cut.
use crate::shared::text;
use crate::shared::text::characters;
use crate::shared::text::decimal_text;
use crate::shared::text::lossy_text;
use crate::shared::text::same_text;
use crate::shared::text::text_after;
use crate::shared::text::trim_slashes;
use crate::shared::text::trim_text;
use vstd::prelude::*;

verus! {

/// The code points of the Unicode property `White_Space`.
pub open spec fn is_space(c: char) -> bool {
    let n = c as int;
    ||| n == 9 || n == 10 || n == 11 || n == 12 || n == 13
    ||| n == 32 || n == 133 || n == 160 || n == 5760
    ||| 8192 <= n <= 8202
    ||| n == 8232 || n == 8233 || n == 8239 || n == 8287 || n == 12288
}

/// Nothing but white space.
pub open spec fn all_space(s: Seq<char>) -> bool {
    forall|i: int| 0 <= i < s.len() ==> is_space(#[trigger] s[i])
}

/// The text neither starts nor ends with white space.
pub open spec fn no_space_around(s: Seq<char>) -> bool {
    s.len() > 0 ==> !is_space(s[0]) && !is_space(s[s.len() - 1])
}

/// `core` is what is left of `whole` without the white space in front of it and behind it.
pub open spec fn is_core(whole: Seq<char>, core: Seq<char>) -> bool {
    &&& no_space_around(core)
    &&& exists|front: Seq<char>, back: Seq<char>|
        all_space(front) && all_space(back) && whole == #[trigger] around(front, core, back)
}

/// The three texts one after the other.
pub open spec fn around(front: Seq<char>, core: Seq<char>, back: Seq<char>) -> Seq<char> {
    front + core + back
}

proof fn lemma_led(s: Seq<char>)
    ensures
        ({
            let led = text::without_leading_space(s);
            &&& led.len() <= s.len()
            &&& led == s.skip(s.len() - led.len())
            &&& all_space(s.take(s.len() - led.len()))
            &&& led.len() > 0 ==> !is_space(led[0])
        }),
    decreases s.len(),
{
    let led = text::without_leading_space(s);
    if s.len() > 0 && text::white_space(s.first()) {
        let rest = s.drop_first();
        lemma_led(rest);
        let n = s.len() - led.len();
        assert(led =~= s.skip(n));
        assert forall|i: int| 0 <= i < n implies is_space(#[trigger] s.take(n)[i]) by {
            if i > 0 {
                assert(rest.take(n - 1)[i - 1] == s[i]);
            }
        }
    } else {
        assert(led =~= s.skip(0));
    }
}

proof fn lemma_trailed(s: Seq<char>)
    ensures
        ({
            let left = text::without_trailing_space(s);
            &&& left.len() <= s.len()
            &&& left == s.take(left.len() as int)
            &&& all_space(s.skip(left.len() as int))
            &&& left.len() > 0 ==> !is_space(left[left.len() - 1])
        }),
    decreases s.len(),
{
    let left = text::without_trailing_space(s);
    if s.len() > 0 && text::white_space(s.last()) {
        let rest = s.drop_last();
        lemma_trailed(rest);
        let n = left.len() as int;
        assert(left =~= s.take(n));
        assert forall|i: int| 0 <= i < s.len() - n implies is_space(#[trigger] s.skip(n)[i]) by {
            if i < s.len() - n - 1 {
                assert(rest.skip(n)[i] == s[n + i]);
            }
        }
    } else {
        assert(left =~= s.take(s.len() as int));
    }
}

/// A text without the white space around it is the core of the text.
pub proof fn law_every_text_has_a_core(s: Seq<char>)
    ensures
        is_core(s, text::trimmed(s)),
{
    let led = text::without_leading_space(s);
    let core = text::trimmed(s);
    lemma_led(s);
    lemma_trailed(led);
    let front = s.take(s.len() - led.len());
    let back = led.skip(core.len() as int);
    assert(core =~= led.take(core.len() as int));
    assert(s =~= around(front, core, back));
    if core.len() > 0 {
        assert(core[0] == led[0]);
    }
}

proof fn lemma_led_of(front: Seq<char>, s: Seq<char>)
    requires
        all_space(front),
        s.len() > 0 ==> !is_space(s[0]),
    ensures
        text::without_leading_space(front + s) == s,
    decreases front.len(),
{
    if front.len() > 0 {
        assert(is_space(front[0]));
        assert((front + s).drop_first() =~= front.drop_first() + s);
        assert forall|i: int| 0 <= i < front.drop_first().len() implies is_space(
            #[trigger] front.drop_first()[i],
        ) by {
            assert(is_space(front[i + 1]));
        }
        lemma_led_of(front.drop_first(), s);
    } else {
        assert(front + s =~= s);
    }
}

proof fn lemma_trailed_of(s: Seq<char>, back: Seq<char>)
    requires
        all_space(back),
        s.len() > 0 ==> !is_space(s[s.len() - 1]),
    ensures
        text::without_trailing_space(s + back) == s,
    decreases back.len(),
{
    if back.len() > 0 {
        assert(is_space(back[back.len() - 1]));
        assert((s + back).drop_last() =~= s + back.drop_last());
        assert forall|i: int| 0 <= i < back.drop_last().len() implies is_space(
            #[trigger] back.drop_last()[i],
        ) by {
            assert(is_space(back[i]));
        }
        lemma_trailed_of(s, back.drop_last());
    } else {
        assert(s + back =~= s);
    }
}

/// There is one text that is left without the white space around it, and it is that one.
pub proof fn law_trimmed_is_the_core(front: Seq<char>, core: Seq<char>, back: Seq<char>)
    requires
        all_space(front),
        all_space(back),
        no_space_around(core),
    ensures
        text::trimmed(around(front, core, back)) == core,
        is_core(around(front, core, back), text::trimmed(around(front, core, back))),
{
    law_every_text_has_a_core(around(front, core, back));
    let whole = around(front, core, back);
    assert(whole =~= front + (core + back));
    if core.len() > 0 {
        lemma_led_of(front, core + back);
        lemma_trailed_of(core, back);
    } else {
        let space = front + back;
        assert(whole =~= space + Seq::empty());
        assert forall|i: int| 0 <= i < space.len() implies is_space(#[trigger] space[i]) by {
            if i < front.len() {
                assert(is_space(front[i]));
            } else {
                assert(is_space(back[i - front.len()]));
            }
        }
        lemma_led_of(space, Seq::empty());
        assert(text::without_trailing_space(Seq::<char>::empty()) =~= Seq::empty());
        assert(core =~= Seq::empty());
    }
}

/// Trimming cuts off the white space around a text, all of it and nothing else.
pub proof fn law_trimming_cuts_off_white_space(s: &str, rest: &str)
    requires
        call_ensures(trim_text, (s,), rest),
    ensures
        is_core(s@, rest@),
        no_space_around(s@) ==> rest@ == s@,
{
    law_every_text_has_a_core(s@);
    if no_space_around(s@) {
        let none = Seq::<char>::empty();
        assert(around(none, s@, none) =~= s@);
        law_trimmed_is_the_core(none, s@, none);
    }
}

/// Slashes are cut off at the end, all of them and nothing else.
pub proof fn law_slashes_are_cut_off(s: &str, rest: &str)
    requires
        call_ensures(trim_slashes, (s,), rest),
    ensures
        rest@.len() <= s@.len(),
        rest@ == s@.take(rest@.len() as int),
        rest@.len() > 0 ==> rest@[rest@.len() - 1] != '/',
        forall|i: int| rest@.len() <= i < s@.len() ==> s@[i] == '/',
{
    text::lemma_without_trailing_slashes(s@);
    assert(rest@ =~= s@.take(rest@.len() as int));
}

/// Two texts are the same just where they have the same characters.
pub proof fn law_same_text_has_the_same_characters(a: &str, b: &str, same: bool)
    requires
        call_ensures(same_text, (a, b), same),
    ensures
        same <==> a@.len() == b@.len() && forall|i: int| 0 <= i < a@.len() ==> a@[i] == b@[i],
{
    if a@.len() == b@.len() && forall|i: int| 0 <= i < a@.len() ==> a@[i] == b@[i] {
        assert(a@ =~= b@);
    }
}

/// A text after a head is what has to be put behind the head to have the text again; there is none
/// where the text does not start with the head.
pub proof fn law_text_after_is_put_behind(s: &str, head: &str, rest: Option<&str>)
    requires
        call_ensures(text_after, (s, head), rest),
    ensures
        rest matches Some(r) ==> s@ == head@ + r@,
        rest is None ==> forall|r: Seq<char>| s@ != #[trigger] (head@ + r),
{
    match rest {
        Some(r) => {
            assert(s@ =~= head@ + r@);
        },
        None => {
            assert forall|r: Seq<char>| s@ != #[trigger] (head@ + r) by {
                if s@ == head@ + r {
                    assert(head@.is_prefix_of(s@));
                }
            }
        },
    }
}

/// The characters of a text are those of the text.
pub proof fn law_characters_are_those_of_the_text(s: &str, chars: Vec<char>)
    requires
        call_ensures(characters, (s,), chars),
    ensures
        chars@ == s@,
{
}

/// Bytes that are UTF-8 become the text that they encode.
pub proof fn law_encoded_text_is_read_back(s: Seq<char>, bytes: &[u8], read: String)
    requires
        bytes@ == vstd::utf8::encode_utf8(s),
        call_ensures(lossy_text, (bytes,), read),
    ensures
        read@ == s,
{
    vstd::utf8::encode_utf8_decode_utf8(s);
    vstd::utf8::encode_utf8_valid_utf8(s);
}

/// The number that digits stand for.
pub open spec fn value(digits: Seq<char>) -> nat
    decreases digits.len(),
{
    if digits.len() == 0 {
        0
    } else {
        10 * value(digits.drop_last()) + (digits.last() as nat - 48) as nat
    }
}

/// The decimal digits of a number stand for it, and there is no zero too many in front of them.
pub proof fn law_decimal_stands_for_the_number(n: nat)
    ensures
        value(text::decimal(n)) == n,
        text::decimal(n).len() > 0,
        forall|i: int|
            0 <= i < text::decimal(n).len() ==> '0' <= #[trigger] text::decimal(n)[i] <= '9',
        text::decimal(n).len() > 1 ==> text::decimal(n)[0] != '0',
        text::decimal(n)[0] == '0' ==> n == 0,
    decreases n,
{
    reveal_with_fuel(value, 2);
    text::lemma_decimal(n);
    if n < 10 {
        assert(text::decimal(n).drop_last() =~= Seq::empty());
    } else {
        law_decimal_stands_for_the_number(n / 10);
        assert(text::decimal(n).drop_last() =~= text::decimal(n / 10));
    }
}

/// The digits of a number stand for it, and there is no zero too many in front of them.
pub proof fn law_digits_stand_for_the_number(n: usize, digits: String)
    requires
        call_ensures(decimal_text, (n,), digits),
    ensures
        value(digits@) == n,
        digits@.len() > 0,
        forall|i: int| 0 <= i < digits@.len() ==> '0' <= #[trigger] digits@[i] <= '9',
        digits@.len() > 1 ==> digits@[0] != '0',
{
    law_decimal_stands_for_the_number(n as nat);
}

} // verus!
