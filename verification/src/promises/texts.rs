//! Text: what searching, replacing, trimming, ordering and numbers give.
use vstd::prelude::*;

use crate::promises::turns;
use crate::text;
use crate::text::{
    after_prefix, chars_of, copy_texts, decimal_text, find_text, joined, lower_text, parse_integer,
    replace_text, same_text, sort_texts, strip_leading, text_before, trim_start_text, trim_text,
};

verus! {

/// A text stands in another at a position.
pub open spec fn stands_at(text: Seq<char>, needle: Seq<char>, at: int) -> bool {
    &&& 0 <= at
    &&& at + needle.len() <= text.len()
    &&& forall|k: int| 0 <= k < needle.len() ==> #[trigger] text[at + k] == needle[k]
}

/// Standing at a position is to be the part of the text there.
proof fn lemma_occurs(text: Seq<char>, needle: Seq<char>, at: int)
    ensures
        text::occurs_at(text, needle, at) == stands_at(text, needle, at),
{
    if 0 <= at && at + needle.len() <= text.len() {
        let part = text.subrange(at, at + needle.len());
        if part == needle {
            assert forall|k: int| 0 <= k < needle.len() implies #[trigger] text[at + k]
                == needle[k] by {
                assert(part[k] == text[at + k]);
            }
        }
        if stands_at(text, needle, at) {
            assert forall|k: int| 0 <= k < needle.len() implies part[k] == needle[k] by {
                assert(text[at + k] == needle[k]);
            }
            assert(part =~= needle);
        }
    }
}

/// The first place of a text in another, from a position on.
pub proof fn lemma_first_from(text: Seq<char>, needle: Seq<char>, from: int)
    requires
        0 <= from,
    ensures
        match text::first_from(text, needle, from) {
            Some(at) => from <= at && stands_at(text, needle, at) && forall|k: int|
                from <= k < at ==> !#[trigger] stands_at(text, needle, k),
            None => forall|k: int| from <= k ==> !#[trigger] stands_at(text, needle, k),
        },
    decreases text.len() - from,
{
    lemma_occurs(text, needle, from);
    if from + needle.len() <= text.len() && !text::occurs_at(text, needle, from) && from
        != text.len() {
        lemma_first_from(text, needle, from + 1);
    }
}

/// A text is found where it stands first, and nowhere only where it stands nowhere.
pub proof fn law_texts_are_found_where_they_stand_first(
    text: &str,
    needle: &str,
    found: Option<usize>,
)
    requires
        call_ensures(find_text, (text, needle), found),
    ensures
        found matches Some(at) ==> stands_at(text@, needle@, at as int) && forall|k: int|
            0 <= k < at ==> !#[trigger] stands_at(text@, needle@, k),
        found is None ==> forall|k: int| !#[trigger] stands_at(text@, needle@, k),
{
    lemma_first_from(text@, needle@, 0);
}

/// Where a text stands first it is replaced, what is before it stays, and the rest is treated the
/// same way. A text that does not hold it stays as it is.
pub proof fn law_what_is_found_is_replaced(
    text: &str,
    needle: &str,
    by: &str,
    replaced: String,
    at: int,
    rest: &str,
    rest_replaced: String,
)
    requires
        needle@.len() > 0,
        call_ensures(replace_text, (text, needle, by), replaced),
        call_ensures(replace_text, (rest, needle, by), rest_replaced),
    ensures
        (forall|k: int| !#[trigger] stands_at(text@, needle@, k)) ==> replaced@ == text@,
        stands_at(text@, needle@, at) && (forall|k: int|
            0 <= k < at ==> !#[trigger] stands_at(text@, needle@, k)) && rest@ == text@.skip(
            at + needle@.len(),
        ) ==> replaced@ == text@.take(at) + by@ + rest_replaced@,
{
    if forall|k: int| !#[trigger] stands_at(text@, needle@, k) {
        lemma_not_replaced(text@, needle@, by@);
    }
    if stands_at(text@, needle@, at) && (forall|k: int|
        0 <= k < at ==> !#[trigger] stands_at(text@, needle@, k)) {
        lemma_replaced(text@, needle@, by@, at);
    }
}

/// Nothing is replaced where nothing stands.
proof fn lemma_not_replaced(text: Seq<char>, needle: Seq<char>, by: Seq<char>)
    requires
        needle.len() > 0,
        forall|k: int| !#[trigger] stands_at(text, needle, k),
    ensures
        text::replaced(text, needle, by) == text,
    decreases text.len(),
{
    if text.len() >= needle.len() {
        assert(!stands_at(text, needle, 0));
        if needle.is_prefix_of(text) {
            assert forall|k: int| 0 <= k < needle.len() implies #[trigger] text[0 + k]
                == needle[k] by {
                assert(text.subrange(0, needle.len() as int)[k] == needle[k]);
            }
        }
        let rest = text.skip(1);
        assert forall|k: int| !#[trigger] stands_at(rest, needle, k) by {
            assert(!stands_at(text, needle, k + 1));
            if stands_at(rest, needle, k) {
                assert forall|j: int| 0 <= j < needle.len() implies #[trigger] text[k + 1 + j]
                    == needle[j] by {
                    assert(rest[k + j] == needle[j]);
                }
            }
        }
        lemma_not_replaced(rest, needle, by);
        assert(seq![text[0]] + rest =~= text);
    }
}

/// The first occurrence is replaced.
proof fn lemma_replaced(text: Seq<char>, needle: Seq<char>, by: Seq<char>, at: int)
    requires
        needle.len() > 0,
        stands_at(text, needle, at),
        forall|k: int| 0 <= k < at ==> !#[trigger] stands_at(text, needle, k),
    ensures
        text::replaced(text, needle, by) == text.take(at) + by + text::replaced(
            text.skip(at + needle.len()),
            needle,
            by,
        ),
    decreases at,
{
    let tail = text::replaced(text.skip(at + needle.len()), needle, by);
    if at == 0 {
        assert(text.subrange(0, needle.len() as int) =~= needle) by {
            assert forall|k: int| 0 <= k < needle.len() implies text.subrange(
                0,
                needle.len() as int,
            )[k] == needle[k] by {
                assert(text[0 + k] == needle[k]);
            }
        }
        assert(needle.is_prefix_of(text));
        assert(text.take(0) + by + tail =~= by + tail);
    } else {
        assert(!stands_at(text, needle, 0));
        if needle.is_prefix_of(text) {
            assert forall|k: int| 0 <= k < needle.len() implies #[trigger] text[0 + k]
                == needle[k] by {
                assert(text.subrange(0, needle.len() as int)[k] == needle[k]);
            }
        }
        let rest = text.skip(1);
        assert(stands_at(rest, needle, at - 1)) by {
            assert forall|j: int| 0 <= j < needle.len() implies #[trigger] rest[at - 1 + j]
                == needle[j] by {
                assert(text[at + j] == needle[j]);
            }
        }
        assert forall|k: int| 0 <= k < at - 1 implies !#[trigger] stands_at(rest, needle, k) by {
            assert(!stands_at(text, needle, k + 1));
            if stands_at(rest, needle, k) {
                assert forall|j: int| 0 <= j < needle.len() implies #[trigger] text[k + 1 + j]
                    == needle[j] by {
                    assert(rest[k + j] == needle[j]);
                }
            }
        }
        lemma_replaced(rest, needle, by, at - 1);
        assert(rest.skip(at - 1 + needle.len()) =~= text.skip(at + needle.len()));
        assert(seq![text[0]] + (rest.take(at - 1) + by + tail) =~= text.take(at) + by + tail);
    }
}

/// A trimmed text is the part of a text between the white space around it: it neither begins nor
/// ends with white space, and nothing else is left out.
pub proof fn law_trimming_leaves_out_white_space(text: &str, trimmed: String)
    requires
        call_ensures(trim_text, (text,), trimmed),
    ensures
        exists|from: int, to: int|
            {
                &&& 0 <= from <= to <= text@.len()
                &&& trimmed@ == #[trigger] text@.subrange(from, to)
                &&& forall|i: int| 0 <= i < from ==> text::white_space(#[trigger] text@[i])
                &&& forall|i: int| to <= i < text@.len() ==> text::white_space(#[trigger] text@[i])
            },
        trimmed@.len() > 0 ==> !text::white_space(trimmed@[0]) && !text::white_space(
            trimmed@.last(),
        ),
{
    turns::lemma_trimmed_start(text@);
    let rest = text::trimmed_start(text@);
    turns::lemma_trimmed_end(rest);
    let from = text@.len() - rest.len();
    let to = from + trimmed@.len();
    assert(trimmed@ =~= text@.subrange(from, to)) by {
        assert(trimmed@ == rest.take(trimmed@.len() as int));
    }
    assert forall|i: int| to <= i < text@.len() implies text::white_space(#[trigger] text@[i]) by {
        assert(rest[i - from] == text@[i]);
    }
}

/// A text without its leading white space is the rest of it from the first character that is
/// none.
pub proof fn law_leading_white_space_is_left_out(text: &str, trimmed: String)
    requires
        call_ensures(trim_start_text, (text,), trimmed),
    ensures
        trimmed@.len() <= text@.len(),
        trimmed@ == text@.skip(text@.len() - trimmed@.len()),
        forall|i: int|
            0 <= i < text@.len() - trimmed@.len() ==> text::white_space(#[trigger] text@[i]),
        trimmed@.len() > 0 ==> !text::white_space(trimmed@[0]),
{
    turns::lemma_trimmed_start(text@);
}

/// A text without the characters that it begins with is the rest of it from the first other one.
pub proof fn law_leading_characters_are_left_out(text: &str, c: char, stripped: String)
    requires
        call_ensures(strip_leading, (text, c), stripped),
    ensures
        stripped@.len() <= text@.len(),
        stripped@ == text@.skip(text@.len() - stripped@.len()),
        forall|i: int| 0 <= i < text@.len() - stripped@.len() ==> #[trigger] text@[i] == c,
        stripped@.len() > 0 ==> stripped@[0] != c,
{
    lemma_without_leading(text@, c);
}

/// What is left out at the beginning.
pub proof fn lemma_without_leading(text: Seq<char>, c: char)
    ensures
        ({
            let rest = text::without_leading(text, c);
            &&& rest.len() <= text.len()
            &&& rest == text.skip(text.len() - rest.len())
            &&& forall|i: int| 0 <= i < text.len() - rest.len() ==> #[trigger] text[i] == c
            &&& rest.len() > 0 ==> rest[0] != c
        }),
    decreases text.len(),
{
    let rest = text::without_leading(text, c);
    if text.len() > 0 && text[0] == c {
        lemma_without_leading(text.skip(1), c);
        assert(rest =~= text.skip(text.len() - rest.len()));
        assert forall|i: int| 0 <= i < text.len() - rest.len() implies #[trigger] text[i] == c by {
            if i > 0 {
                assert(text.skip(1)[i - 1] == c);
            }
        }
    } else {
        assert(text.skip(0) =~= text);
    }
}

/// What stands behind a prefix is what is left, and only a text that does not begin with it has
/// nothing behind it.
pub proof fn law_what_stands_behind_a_prefix(text: &str, prefix: &str, rest: Option<String>)
    requires
        call_ensures(after_prefix, (text, prefix), rest),
    ensures
        rest matches Some(behind) ==> text@ == prefix@ + behind@,
        rest is None ==> !stands_at(text@, prefix@, 0),
{
    lemma_occurs(text@, prefix@, 0);
    if text::occurs_at(text@, prefix@, 0) {
        assert(prefix@.is_prefix_of(text@));
    }
}

/// Only the capital letters of ASCII become small; every other character stays.
pub proof fn law_only_capitals_become_small(text: &str, lowered: String, i: int)
    requires
        call_ensures(lower_text, (text,), lowered),
    ensures
        lowered@.len() == text@.len(),
        0 <= i < text@.len() && 'A' <= text@[i] && text@[i] <= 'Z' ==> lowered@[i] as int
            == text@[i] as int + ('a' as int - 'A' as int),
        0 <= i < text@.len() && !('A' <= text@[i] && text@[i] <= 'Z') ==> lowered@[i] == text@[i],
{
}

/// Texts are compared, joined and copied as they are.
pub proof fn law_texts_are_taken_as_they_are(
    a: &str,
    b: &str,
    same: bool,
    both: String,
    chars: Vec<char>,
    texts: Vec<String>,
    copies: Vec<String>,
)
    requires
        call_ensures(same_text, (a, b), same),
        call_ensures(joined, (a, b), both),
        call_ensures(chars_of, (a,), chars),
        call_ensures(copy_texts, (&texts,), copies),
    ensures
        same <==> a@ == b@,
        both@ == a@ + b@,
        chars@ == a@,
        copies@ == texts@,
{
}

/// One text comes before another: at the first difference it has the smaller character, or it ends
/// there.
pub open spec fn comes_before(a: Seq<char>, b: Seq<char>) -> bool {
    exists|k: int|
        {
            &&& 0 <= k <= a.len()
            &&& k < b.len()
            &&& #[trigger] a.take(k) == b.take(k)
            &&& k == a.len() || (a[k] as int) < (b[k] as int)
        }
}

/// The order of text.
pub proof fn lemma_precedes(a: Seq<char>, b: Seq<char>)
    ensures
        text::precedes(a, b) == comes_before(a, b),
    decreases a.len(),
{
    if a.len() > 0 && b.len() > 0 && a[0] == b[0] {
        let p = a.skip(1);
        let q = b.skip(1);
        lemma_precedes(p, q);
        if comes_before(p, q) {
            let k = choose|k: int|
                {
                    &&& 0 <= k <= p.len()
                    &&& k < q.len()
                    &&& #[trigger] p.take(k) == q.take(k)
                    &&& k == p.len() || (p[k] as int) < (q[k] as int)
                };
            assert(a.take(k + 1) =~= seq![a[0]] + p.take(k));
            assert(b.take(k + 1) =~= seq![b[0]] + q.take(k));
        }
        if comes_before(a, b) {
            let k = choose|k: int|
                {
                    &&& 0 <= k <= a.len()
                    &&& k < b.len()
                    &&& #[trigger] a.take(k) == b.take(k)
                    &&& k == a.len() || (a[k] as int) < (b[k] as int)
                };
            assert(k > 0);
            assert(p.take(k - 1) =~= a.take(k).skip(1));
            assert(q.take(k - 1) =~= b.take(k).skip(1));
        }
    } else if a.len() > 0 && b.len() > 0 {
        assert(a.take(0) =~= b.take(0));
        if comes_before(a, b) {
            let k = choose|k: int|
                {
                    &&& 0 <= k <= a.len()
                    &&& k < b.len()
                    &&& #[trigger] a.take(k) == b.take(k)
                    &&& k == a.len() || (a[k] as int) < (b[k] as int)
                };
            if k > 0 {
                assert(a.take(k)[0] == b.take(k)[0]);
            }
        }
    } else if b.len() > 0 {
        assert(a.take(0) =~= b.take(0));
    }
}

/// Texts are ordered by their characters.
pub proof fn law_texts_are_ordered_by_their_characters(a: &str, b: &str, before: bool)
    requires
        call_ensures(text_before, (a, b), before),
    ensures
        before <==> comes_before(a@, b@),
{
    lemma_precedes(a@, b@);
}

/// Sorting keeps every text, as often as there is, and leaves no later one before an earlier one.
pub proof fn law_sorting_orders_and_keeps(texts: Vec<String>, sorted: Vec<String>)
    requires
        call_ensures(sort_texts, (&texts,), sorted),
    ensures
        sorted@.to_multiset() == texts@.to_multiset(),
        forall|i: int, j: int|
            0 <= i < j < sorted@.len() ==> !comes_before(
                (#[trigger] sorted@[j])@,
                (#[trigger] sorted@[i])@,
            ),
{
    assert forall|i: int, j: int| 0 <= i < j < sorted@.len() implies !comes_before(
        (#[trigger] sorted@[j])@,
        (#[trigger] sorted@[i])@,
    ) by {
        lemma_precedes(sorted@[j]@, sorted@[i]@);
    }
}

/// A character is a digit.
pub open spec fn is_digit(c: char) -> bool {
    '0' <= c && c <= '9'
}

/// What digits stand for: ten times what those before the last stand for, and the last.
pub open spec fn number_of(digits: Seq<char>) -> int
    decreases digits.len(),
{
    if digits.len() == 0 {
        0
    } else {
        10 * number_of(digits.drop_last()) + (digits.last() as int - '0' as int)
    }
}

/// All characters are digits.
pub open spec fn all_digits(text: Seq<char>) -> bool {
    forall|i: int| 0 <= i < text.len() ==> is_digit(#[trigger] text[i])
}

/// A number in decimal notation.
proof fn lemma_decimal(n: nat)
    ensures
        text::decimal(n).len() > 0,
        all_digits(text::decimal(n)),
        number_of(text::decimal(n)) == n,
        n > 0 ==> text::decimal(n)[0] != '0',
        n == 0 ==> text::decimal(n).len() == 1,
    decreases n,
{
    let all = text::decimal(n);
    if n < 10 {
        assert(all.drop_last() =~= Seq::<char>::empty());
        assert(number_of(all.drop_last()) == 0);
        assert(all.last() == text::digit(n));
    } else {
        lemma_decimal(n / 10);
        let high = text::decimal(n / 10);
        assert(all.drop_last() =~= high);
        assert(all[0] == high[0]);
        assert forall|i: int| 0 <= i < all.len() implies is_digit(#[trigger] all[i]) by {
            if i < high.len() {
                assert(is_digit(high[i]));
            }
        }
    }
}

/// A number is written in digits that stand for it, without leading zeros.
pub proof fn law_numbers_are_written_out(n: u64, written: String)
    requires
        call_ensures(decimal_text, (n,), written),
    ensures
        written@.len() > 0,
        all_digits(written@),
        number_of(written@) == n,
        n > 0 ==> written@[0] != '0',
        n == 0 ==> written@.len() == 1,
{
    lemma_decimal(n as nat);
}

/// What digits stand for is read from them, and nothing where there is another character.
proof fn lemma_digits_value(digits: Seq<char>)
    ensures
        all_digits(digits) ==> text::digits_value(digits) == Some(number_of(digits) as nat)
            && number_of(digits) >= 0,
        !all_digits(digits) ==> text::digits_value(digits) is None,
    decreases digits.len(),
{
    if digits.len() > 0 {
        let shorter = digits.drop_last();
        lemma_digits_value(shorter);
        if all_digits(digits) {
            assert forall|i: int| 0 <= i < shorter.len() implies is_digit(
                #[trigger] shorter[i],
            ) by {
                assert(is_digit(digits[i]));
            }
            assert(is_digit(digits[digits.len() - 1]));
        } else if all_digits(shorter) {
            assert(!is_digit(digits.last())) by {
                let i = choose|i: int| 0 <= i < digits.len() && !is_digit(#[trigger] digits[i]);
                if i < shorter.len() {
                    assert(is_digit(shorter[i]));
                }
            }
        }
    }
}

/// The digits of a text: those behind its sign, where it has one.
pub open spec fn digits_of(text: Seq<char>) -> Seq<char> {
    if text.len() > 0 && (text[0] == '-' || text[0] == '+') {
        text.skip(1)
    } else {
        text
    }
}

/// The integer that a text stands for is read from it: one digit at least, with a sign or without,
/// and nothing else. What does not fit is not read.
pub proof fn law_integers_are_read(text: &str, read: Option<i64>)
    requires
        call_ensures(parse_integer, (text,), read),
    ensures
        ({
            let digits = digits_of(text@);
            let value = if text@.len() > 0 && text@[0] == '-' {
                -number_of(digits)
            } else {
                number_of(digits)
            };
            &&& read is Some <==> digits.len() > 0 && all_digits(digits) && i64::MIN <= value
                <= i64::MAX
            &&& read is Some ==> read->0 == value
        }),
{
    lemma_digits_value(digits_of(text@));
}

/// A number that is written out is read back.
pub proof fn law_written_numbers_are_read_back(
    n: u64,
    written: String,
    text: &str,
    read: Option<i64>,
)
    requires
        call_ensures(decimal_text, (n,), written),
        call_ensures(parse_integer, (text,), read),
        text@ == written@,
        n <= i64::MAX,
    ensures
        read == Some(n as i64),
{
    lemma_decimal(n as nat);
    assert(is_digit(written@[0]));
    lemma_digits_value(written@);
}

} // verus!
