//! Text as sequences of characters: the few string operations the session logic needs, each
//! stated over `Seq<char>`.
use vstd::prelude::*;

verus! {

/// Whether a character counts as white space when text is trimmed: it has the Unicode property
/// `White_Space`.
pub open spec fn white_space(c: char) -> bool {
    let code = c as u32;
    ||| 0x0009 <= code <= 0x000d
    ||| code == 0x0020
    ||| code == 0x0085
    ||| code == 0x00a0
    ||| code == 0x1680
    ||| 0x2000 <= code <= 0x200a
    ||| code == 0x2028
    ||| code == 0x2029
    ||| code == 0x202f
    ||| code == 0x205f
    ||| code == 0x3000
}

/// Calls `char::is_whitespace`: the character has the Unicode property `White_Space`.
#[verifier::external_body]
pub(crate) fn is_white_space(c: char) -> (result: bool)
    ensures
        result == white_space(c),
{
    c.is_whitespace()
}

/// Calls `String::from_iter` on a slice of characters: the string holds exactly those characters,
/// in their order.
#[verifier::external_body]
pub(crate) fn string_from_chars(chars: &[char]) -> (result: String)
    ensures
        result@ == chars@,
{
    String::from_iter(chars)
}

/// A text as it is shown in a message about a value: between quotation marks, with what would not
/// be seen, or would be taken for the closing mark, escaped.
pub uninterp spec fn quoted(text: Seq<char>) -> Seq<char>;

/// Calls `format!` with the `Debug` form of a text, which the text alone decides. The result is given
/// the name [`quoted`], because which characters are escaped takes tables to say.
#[verifier::external_body]
pub(crate) fn quoted_text(text: &str) -> (result: String)
    ensures
        result@ == quoted(text@),
{
    format!("{text:?}")
}

/// The characters of a string.
pub fn chars_of(text: &str) -> (result: Vec<char>)
    ensures
        result@ == text@,
{
    let mut result: Vec<char> = Vec::new();
    for c in iter: text.chars()
        invariant
            result@.len() == iter.index(),
            iter.seq() == text@,
            forall|i: int| 0 <= i < result@.len() ==> result@[i] == iter.seq()[i],
    {
        result.push(c);
    }
    assert(result@ =~= text@);
    result
}


/// `needle` stands in `text` at position `at`.
pub open spec fn occurs_at(text: Seq<char>, needle: Seq<char>, at: int) -> bool {
    &&& 0 <= at
    &&& at + needle.len() <= text.len()
    &&& text.subrange(at, at + needle.len()) == needle
}

/// The first position, not before `from`, at which `needle` stands in `text`.
pub open spec fn first_from(text: Seq<char>, needle: Seq<char>, from: int) -> Option<int>
    decreases text.len() - from,
{
    if from < 0 || from + needle.len() > text.len() {
        None
    } else if occurs_at(text, needle, from) {
        Some(from)
    } else if from == text.len() {
        None
    } else {
        first_from(text, needle, from + 1)
    }
}

/// The first position at which `needle` stands in `text`.
pub open spec fn first_occurrence(text: Seq<char>, needle: Seq<char>) -> Option<int> {
    first_from(text, needle, 0)
}

/// `text` with each occurrence of `needle`, taken from the left without overlap, replaced.
pub open spec fn replaced(text: Seq<char>, needle: Seq<char>, by: Seq<char>) -> Seq<char>
    decreases text.len(),
{
    if needle.len() == 0 || text.len() < needle.len() {
        text
    } else if needle.is_prefix_of(text) {
        by + replaced(text.skip(needle.len() as int), needle, by)
    } else {
        seq![text[0]] + replaced(text.skip(1), needle, by)
    }
}

/// `text` without its leading white space.
pub open spec fn trimmed_start(text: Seq<char>) -> Seq<char>
    decreases text.len(),
{
    if text.len() > 0 && white_space(text[0]) {
        trimmed_start(text.skip(1))
    } else {
        text
    }
}

/// `text` without its trailing white space.
pub open spec fn trimmed_end(text: Seq<char>) -> Seq<char>
    decreases text.len(),
{
    if text.len() > 0 && white_space(text.last()) {
        trimmed_end(text.drop_last())
    } else {
        text
    }
}

/// `text` without the white space around it.
pub open spec fn trimmed(text: Seq<char>) -> Seq<char> {
    trimmed_end(trimmed_start(text))
}

/// The decimal digit of a number below ten.
pub open spec fn digit(n: nat) -> char {
    (('0' as nat + n) as char)
}

/// A number in decimal notation, without leading zeros.
pub open spec fn decimal(n: nat) -> Seq<char>
    decreases n,
{
    if n < 10 {
        seq![digit(n)]
    } else {
        decimal(n / 10).push(digit(n % 10))
    }
}

/// The order of text by its characters' code points, a proper prefix coming first.
pub open spec fn precedes(a: Seq<char>, b: Seq<char>) -> bool
    decreases a.len(),
{
    if b.len() == 0 {
        false
    } else if a.len() == 0 {
        true
    } else if a[0] == b[0] {
        precedes(a.skip(1), b.skip(1))
    } else {
        (a[0] as int) < (b[0] as int)
    }
}

/// Whether two strings hold the same text.
pub fn same_text(a: &str, b: &str) -> (result: bool)
    ensures
        result == (a@ == b@),
{
    a.to_owned() == b.to_owned()
}

/// Two strings, one after the other.
pub fn joined(a: &str, b: &str) -> (result: String)
    ensures
        result@ == a@ + b@,
{
    let mut result = a.to_owned();
    result.append(b);
    result
}

/// Whether `needle` stands in `text` at position `at`.
fn stands_at(text: &Vec<char>, needle: &Vec<char>, at: usize) -> (result: bool)
    ensures
        result == occurs_at(text@, needle@, at as int),
{
    if needle.len() > text.len() || at > text.len() - needle.len() {
        return false;
    }
    let mut i: usize = 0;
    while i < needle.len()
        invariant
            i <= needle.len(),
            at + needle.len() <= text.len(),
            forall|j: int| 0 <= j < i ==> text@[at + j] == needle@[j],
        decreases needle.len() - i,
    {
        if text[at + i] != needle[i] {
            assert(text@.subrange(at as int, at + needle@.len())[i as int] != needle@[i as int]);
            return false;
        }
        i += 1;
    }
    assert(text@.subrange(at as int, at + needle@.len()) =~= needle@);
    true
}

/// The first position at which `needle` stands in `text`.
pub fn find_text(text: &str, needle: &str) -> (result: Option<usize>)
    ensures
        match first_occurrence(text@, needle@) {
            Some(at) => result is Some && result->0 == at,
            None => result is None,
        },
        result is Some ==> result->0 + needle@.len() <= text@.len(),
{
    let chars = chars_of(text);
    let wanted = chars_of(needle);
    if wanted.len() > chars.len() {
        return None;
    }
    let last: usize = chars.len() - wanted.len();
    let mut at: usize = 0;
    loop
        invariant
            at <= last,
            chars@ == text@,
            wanted@ == needle@,
            last == text@.len() - needle@.len(),
            first_occurrence(text@, needle@) == first_from(text@, needle@, at as int),
        decreases last - at,
    {
        if stands_at(&chars, &wanted, at) {
            return Some(at);
        }
        if at == last {
            assert(first_from(text@, needle@, at + 1) is None);
            return None;
        }
        at += 1;
    }
}

/// `text` with each occurrence of `needle` replaced.
pub fn replace_text(text: &str, needle: &str, by: &str) -> (result: String)
    ensures
        result@ == replaced(text@, needle@, by@),
{
    let chars = chars_of(text);
    let needle_chars = chars_of(needle);
    let with = chars_of(by);
    let mut result: Vec<char> = Vec::new();
    let mut at: usize = 0;
    if needle_chars.len() == 0 {
        return text.to_owned();
    }
    assert(chars@.skip(0) =~= chars@);
    while at < chars.len()
        invariant
            at <= chars@.len(),
            needle_chars@.len() > 0,
            with@ == by@,
            result@ + replaced(chars@.skip(at as int), needle_chars@, by@) == replaced(
                chars@,
                needle_chars@,
                by@,
            ),
        decreases chars@.len() - at,
    {
        let ghost rest = chars@.skip(at as int);
        let ghost before = result@;
        if stands_at(&chars, &needle_chars, at) {
            assert(needle_chars@.is_prefix_of(rest)) by {
                assert(rest.subrange(0, needle_chars@.len() as int) =~= chars@.subrange(
                    at as int,
                    at + needle_chars@.len(),
                ));
            }
            let mut piece = with.clone();
            assert(piece@ =~= with@);
            result.append(&mut piece);
            at += needle_chars.len();
            assert(rest.skip(needle_chars@.len() as int) =~= chars@.skip(at as int));
            assert(before + (by@ + replaced(chars@.skip(at as int), needle_chars@, by@)) =~= result@
                + replaced(chars@.skip(at as int), needle_chars@, by@));
        } else {
            assert(!needle_chars@.is_prefix_of(rest)) by {
                if needle_chars@.is_prefix_of(rest) {
                    assert(chars@.subrange(at as int, at + needle_chars@.len())
                        =~= rest.subrange(0, needle_chars@.len() as int));
                    assert(occurs_at(chars@, needle_chars@, at as int));
                }
            }
            let c = chars[at];
            result.push(c);
            at += 1;
            assert(rest.skip(1) =~= chars@.skip(at as int));
            proof {
                if rest.len() < needle_chars@.len() {
                    assert(before + rest =~= result@ + chars@.skip(at as int));
                } else {
                    assert(before + (seq![c] + replaced(
                        chars@.skip(at as int),
                        needle_chars@,
                        by@,
                    )) =~= result@ + replaced(chars@.skip(at as int), needle_chars@, by@));
                }
            }
        }
    }
    assert(chars@.skip(at as int) =~= Seq::<char>::empty());
    assert(result@ + Seq::<char>::empty() =~= result@);
    string_from_chars(result.as_slice())
}

/// `text` without the white space around it.
pub fn trim_text(text: &str) -> (result: String)
    ensures
        result@ == trimmed(text@),
{
    let chars = chars_of(text);
    let mut start: usize = 0;
    assert(chars@.skip(0) =~= chars@);
    while start < chars.len() && is_white_space(chars[start])
        invariant
            start <= chars@.len(),
            trimmed_start(chars@.skip(start as int)) == trimmed_start(chars@),
        decreases chars@.len() - start,
    {
        assert(chars@.skip(start as int).skip(1) =~= chars@.skip(start + 1));
        start += 1;
    }
    let mut end: usize = chars.len();
    assert(trimmed_start(chars@) == chars@.skip(start as int));
    assert(chars@.subrange(start as int, end as int) =~= chars@.skip(start as int));
    while end > start && is_white_space(chars[end - 1])
        invariant
            start <= end <= chars@.len(),
            trimmed_end(chars@.subrange(start as int, end as int)) == trimmed(chars@),
        decreases end,
    {
        assert(chars@.subrange(start as int, end as int).drop_last() =~= chars@.subrange(
            start as int,
            end - 1,
        ));
        end -= 1;
    }
    text.substring_char(start, end).to_owned()
}

/// `text` without its leading white space.
pub fn trim_start_text(text: &str) -> (result: String)
    ensures
        result@ == trimmed_start(text@),
{
    let chars = chars_of(text);
    let mut start: usize = 0;
    assert(chars@.skip(0) =~= chars@);
    while start < chars.len() && is_white_space(chars[start])
        invariant
            start <= chars@.len(),
            trimmed_start(chars@.skip(start as int)) == trimmed_start(chars@),
        decreases chars@.len() - start,
    {
        assert(chars@.skip(start as int).skip(1) =~= chars@.skip(start + 1));
        start += 1;
    }
    assert(chars@.subrange(start as int, chars@.len() as int) =~= chars@.skip(start as int));
    text.substring_char(start, chars.len()).to_owned()
}

/// The rest of `text` behind `prefix`, where it begins with it.
pub fn after_prefix(text: &str, prefix: &str) -> (result: Option<String>)
    ensures
        match result {
            Some(rest) => text@ == prefix@ + rest@,
            None => !prefix@.is_prefix_of(text@),
        },
{
    let chars = chars_of(text);
    let prefix_chars = chars_of(prefix);
    if stands_at(&chars, &prefix_chars, 0) {
        let rest = text.substring_char(prefix_chars.len(), chars.len()).to_owned();
        assert(text@ =~= prefix@ + rest@) by {
            assert(text@.subrange(0, prefix@.len() as int) == prefix@);
            assert forall|i: int| 0 <= i < text@.len() implies text@[i] == (prefix@ + rest@)[i] by {
                if i < prefix@.len() {
                    assert(text@.subrange(0, prefix@.len() as int)[i] == prefix@[i]);
                }
            }
        }
        Some(rest)
    } else {
        assert(!prefix@.is_prefix_of(text@)) by {
            if prefix@.is_prefix_of(text@) {
                assert(occurs_at(text@, prefix@, 0));
            }
        }
        None
    }
}

/// `text` without the characters `c` that it begins with.
pub open spec fn without_leading(text: Seq<char>, c: char) -> Seq<char>
    decreases text.len(),
{
    if text.len() > 0 && text[0] == c {
        without_leading(text.skip(1), c)
    } else {
        text
    }
}

/// `text` without the characters `c` that it begins with.
pub fn strip_leading(text: &str, c: char) -> (result: String)
    ensures
        result@ == without_leading(text@, c),
{
    let chars = chars_of(text);
    let mut start: usize = 0;
    assert(chars@.skip(0) =~= chars@);
    while start < chars.len() && chars[start] == c
        invariant
            start <= chars@.len(),
            without_leading(chars@.skip(start as int), c) == without_leading(chars@, c),
        decreases chars@.len() - start,
    {
        assert(chars@.skip(start as int).skip(1) =~= chars@.skip(start + 1));
        start += 1;
    }
    assert(chars@.subrange(start as int, chars@.len() as int) =~= chars@.skip(start as int));
    text.substring_char(start, chars.len()).to_owned()
}

/// A letter of ASCII in lower case; any other character as it is.
pub open spec fn lower_letter(c: char) -> char {
    if 'A' <= c && c <= 'Z' {
        ((c as int + 32) as char)
    } else {
        c
    }
}

/// A text with its letters of ASCII in lower case.
pub open spec fn lowered(text: Seq<char>) -> Seq<char> {
    text.map_values(|c: char| lower_letter(c))
}

/// A text with its letters of ASCII in lower case.
pub fn lower_text(text: &str) -> (result: String)
    ensures
        result@ == lowered(text@),
{
    let chars = chars_of(text);
    let mut result: Vec<char> = Vec::new();
    let mut i: usize = 0;
    while i < chars.len()
        invariant
            i <= chars@.len(),
            result@.len() == i,
            forall|j: int| 0 <= j < i ==> #[trigger] result@[j] == lower_letter(chars@[j]),
        decreases chars@.len() - i,
    {
        let c = chars[i];
        let low: char = if 'A' <= c && c <= 'Z' {
            (c as u8 + 32) as char
        } else {
            c
        };
        result.push(low);
        i += 1;
    }
    assert(result@ =~= lowered(text@));
    string_from_chars(result.as_slice())
}

/// Copies of texts.
pub fn copy_texts(texts: &Vec<String>) -> (result: Vec<String>)
    ensures
        result@ == texts@,
{
    let mut result: Vec<String> = Vec::new();
    let mut i: usize = 0;
    while i < texts.len()
        invariant
            i <= texts@.len(),
            result@ == texts@.take(i as int),
        decreases texts@.len() - i,
    {
        result.push(texts[i].clone());
        i += 1;
        assert(result@ =~= texts@.take(i as int));
    }
    assert(texts@.take(i as int) =~= texts@);
    result
}

/// Whether `a` comes before `b` in the order of text.
pub fn text_before(a: &str, b: &str) -> (result: bool)
    ensures
        result == precedes(a@, b@),
{
    let left = chars_of(a);
    let right = chars_of(b);
    let mut i: usize = 0;
    assert(left@.skip(0) =~= left@);
    assert(right@.skip(0) =~= right@);
    loop
        invariant
            i <= left@.len(),
            i <= right@.len(),
            left@ == a@,
            right@ == b@,
            precedes(left@.skip(i as int), right@.skip(i as int)) == precedes(left@, right@),
        decreases left@.len() - i,
    {
        if i == right.len() {
            return false;
        }
        if i == left.len() {
            return true;
        }
        if left[i] != right[i] {
            return left[i] < right[i];
        }
        assert(left@.skip(i as int).skip(1) =~= left@.skip(i + 1));
        assert(right@.skip(i as int).skip(1) =~= right@.skip(i + 1));
        i += 1;
    }
}

/// A number in decimal notation.
pub fn decimal_text(n: u64) -> (result: String)
    ensures
        result@ == decimal(n as nat),
    decreases n,
{
    let digits = "0123456789";
    proof {
        reveal_strlit("0123456789");
    }
    let low: usize = (n % 10) as usize;
    let last = digits.substring_char(low, low + 1);
    assert(last@ =~= seq![digit((n % 10) as nat)]);
    if n < 10 {
        last.to_owned()
    } else {
        let mut result = decimal_text(n / 10);
        let ghost high = result@;
        result.append(last);
        assert(high + last@ =~= high.push(digit((n % 10) as nat)));
        result
    }
}

/// No text comes before itself.
pub proof fn lemma_precedes_irreflexive(a: Seq<char>)
    ensures
        !precedes(a, a),
    decreases a.len(),
{
    if a.len() > 0 {
        lemma_precedes_irreflexive(a.skip(1));
    }
}

/// Of two different texts one comes before the other.
pub proof fn lemma_precedes_total(a: Seq<char>, b: Seq<char>)
    ensures
        a == b || precedes(a, b) || precedes(b, a),
    decreases a.len(),
{
    if a.len() > 0 && b.len() > 0 && a[0] == b[0] {
        lemma_precedes_total(a.skip(1), b.skip(1));
        if a.skip(1) == b.skip(1) {
            assert(a =~= seq![a[0]] + a.skip(1));
            assert(b =~= seq![b[0]] + b.skip(1));
        }
    } else if a.len() == 0 && b.len() == 0 {
        assert(a =~= b);
    }
}

/// What comes before a text comes before whatever the text comes before.
pub proof fn lemma_precedes_transitive(a: Seq<char>, b: Seq<char>, c: Seq<char>)
    requires
        precedes(a, b),
        precedes(b, c),
    ensures
        precedes(a, c),
    decreases a.len(),
{
    if a.len() > 0 && a[0] == b[0] && b[0] == c[0] {
        lemma_precedes_transitive(a.skip(1), b.skip(1), c.skip(1));
    }
}

/// Texts stand in their order.
pub open spec fn in_text_order(texts: Seq<String>) -> bool {
    forall|i: int, j: int|
        0 <= i < j < texts.len() ==> !precedes(
            (#[trigger] texts[j])@,
            (#[trigger] texts[i])@,
        )
}

/// `sorted` holds the texts of `texts`, each as often, in their order.
pub open spec fn is_sorted_copy(sorted: Seq<String>, texts: Seq<String>) -> bool {
    in_text_order(sorted) && sorted.to_multiset() == texts.to_multiset()
}

/// A value put anywhere into a sequence adds itself to what the sequence holds.
proof fn lemma_insert_to_multiset<A>(values: Seq<A>, at: int, value: A)
    requires
        0 <= at <= values.len(),
    ensures
        values.insert(at, value).to_multiset() == values.to_multiset().insert(value),
{
    broadcast use vstd::multiset::group_multiset_axioms;
    broadcast use vstd::seq_lib::group_to_multiset_ensures;

    let longer = values.insert(at, value);
    assert(longer.remove(at) =~= values);
    assert(longer[at] == value);
    vstd::seq_lib::to_multiset_remove(longer, at);
    assert(longer.contains(value));
    assert(longer.to_multiset().count(value) > 0);
    assert(values.to_multiset().insert(value) =~= longer.to_multiset());
}

/// Texts in their order.
pub fn sort_texts(texts: &Vec<String>) -> (result: Vec<String>)
    ensures
        is_sorted_copy(result@, texts@),
{
    let mut sorted: Vec<String> = Vec::new();
    let mut i: usize = 0;
    assert(texts@.take(0) =~= sorted@);
    while i < texts.len()
        invariant
            i <= texts@.len(),
            is_sorted_copy(sorted@, texts@.take(i as int)),
        decreases texts@.len() - i,
    {
        let ghost before = sorted@;
        let text = texts[i].clone();
        let mut at: usize = 0;
        while at < sorted.len() && !text_before(text.as_str(), sorted[at].as_str())
            invariant
                at <= sorted@.len(),
                sorted@ == before,
                forall|j: int| 0 <= j < at ==> !precedes(text@, (#[trigger] before[j])@),
            decreases sorted@.len() - at,
        {
            at += 1;
        }
        sorted.insert(at, text);
        proof {
            let after = sorted@;
            assert(after =~= before.insert(at as int, text));
            assert forall|j: int| at <= j < before.len() implies !precedes(
                (#[trigger] before[j])@,
                text@,
            ) by {
                assert(precedes(text@, before[at as int]@));
                if precedes(before[j]@, text@) {
                    lemma_precedes_transitive(before[j]@, text@, before[at as int]@);
                    if j == at {
                        lemma_precedes_irreflexive(before[j]@);
                    }
                }
            }
            assert forall|p: int, q: int| 0 <= p < q < after.len() implies !precedes(
                (#[trigger] after[q])@,
                (#[trigger] after[p])@,
            ) by {
                let old_p = if p < at {
                    p
                } else {
                    p - 1
                };
                let old_q = if q < at {
                    q
                } else {
                    q - 1
                };
                if p != at {
                    assert(after[p] == before[old_p]);
                }
                if q != at {
                    assert(after[q] == before[old_q]);
                }
            }
            lemma_insert_to_multiset(before, at as int, text);
            assert(texts@.take(i + 1) =~= texts@.take(i as int).push(texts@[i as int]));
            vstd::seq_lib::to_multiset_build(texts@.take(i as int), texts@[i as int]);
        }
        i += 1;
    }
    assert(texts@.take(i as int) =~= texts@);
    sorted
}

/// The number that a sequence of decimal digits stands for; nothing where there is another
/// character.
pub open spec fn digits_value(digits: Seq<char>) -> Option<nat>
    decreases digits.len(),
{
    if digits.len() == 0 {
        Some(0)
    } else {
        let low = digits.last();
        match digits_value(digits.drop_last()) {
            Some(high) if '0' <= low && low <= '9' => Some(
                (high * 10 + (low as nat - '0' as nat)) as nat,
            ),
            _ => None,
        }
    }
}

/// The integer that a text stands for: an optional sign and at least one digit, in the range of
/// `i64`.
pub open spec fn integer_value(text: Seq<char>) -> Option<int> {
    let signed = text.len() > 0 && (text[0] == '-' || text[0] == '+');
    let digits = if signed {
        text.skip(1)
    } else {
        text
    };
    match digits_value(digits) {
        Some(value) if digits.len() > 0 => {
            let number = if signed && text[0] == '-' {
                -(value as int)
            } else {
                value as int
            };
            if i64::MIN <= number <= i64::MAX {
                Some(number)
            } else {
                None
            }
        },
        _ => None,
    }
}

/// More digits never make a number smaller.
proof fn lemma_digits_grow(digits: Seq<char>, i: int)
    requires
        0 <= i <= digits.len(),
        digits_value(digits) is Some,
    ensures
        digits_value(digits.take(i)) is Some,
        digits_value(digits.take(i))->0 <= digits_value(digits)->0,
    decreases digits.len(),
{
    if i < digits.len() {
        assert(digits.drop_last().take(i) =~= digits.take(i));
        lemma_digits_grow(digits.drop_last(), i);
    } else {
        assert(digits.take(i) =~= digits);
    }
}

/// The integer that a text stands for.
pub fn parse_integer(text: &str) -> (result: Option<i64>)
    ensures
        match integer_value(text@) {
            Some(number) => result is Some && result->0 == number,
            None => result is None,
        },
{
    let chars = chars_of(text);
    let signed = chars.len() > 0 && (chars[0] == '-' || chars[0] == '+');
    let negative = chars.len() > 0 && chars[0] == '-';
    let start: usize = if signed { 1 } else { 0 };
    let ghost digits = if signed {
        text@.skip(1)
    } else {
        text@
    };
    if start == chars.len() {
        return None;
    }
    let mut value: i128 = 0;
    let mut i: usize = start;
    assert(digits.take(0) =~= Seq::empty());
    while i < chars.len()
        invariant
            start <= i <= chars@.len(),
            start <= 1,
            chars@ == text@,
            digits.len() == chars@.len() - start,
            digits.len() > 0,
            forall|j: int| 0 <= j < digits.len() ==> digits[j] == chars@[start + j],
            0 <= value <= 0x8000_0000_0000_0000,
            digits_value(digits.take(i - start)) == Some(value as nat),
            signed == (text@.len() > 0 && (text@[0] == '-' || text@[0] == '+')),
            negative == (text@.len() > 0 && text@[0] == '-'),
            digits == (if signed {
                text@.skip(1)
            } else {
                text@
            }),
        decreases chars@.len() - i,
    {
        let c = chars[i];
        let ghost prefix = digits.take(i + 1 - start);
        assert(prefix.drop_last() =~= digits.take(i - start));
        assert(prefix.last() == c);
        if !('0' <= c && c <= '9') {
            assert(digits_value(prefix) is None);
            proof {
                if digits_value(digits) is Some {
                    lemma_digits_grow(digits, i + 1 - start);
                }
            }
            return None;
        }
        value = value * 10 + (c as i128 - '0' as i128);
        assert(digits_value(prefix) == Some(value as nat));
        if value > 0x8000_0000_0000_0000 {
            proof {
                if digits_value(digits) is Some {
                    lemma_digits_grow(digits, i + 1 - start);
                }
            }
            return None;
        }
        i += 1;
    }
    assert(digits.take(i - start) =~= digits);
    if negative {
        Some((-value) as i64)
    } else if value <= i64::MAX as i128 {
        Some(value as i64)
    } else {
        None
    }
}

} // verus!
