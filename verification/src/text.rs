//! Small helpers on text that the other modules share.

use vstd::prelude::*;
use vstd::std_specs::iter::IteratorSpec;

verus! {

/// `str`'s `==`: true exactly when both hold the same characters.
#[verifier::external_body]
pub(crate) fn same_text(left: &str, right: &str) -> (same: bool)
    ensures
        same == (left@ == right@),
{
    left == right
}

/// Appends one text to a list of texts.
pub fn push_text(texts: &mut Vec<String>, text: &str)
    ensures
        final(texts).deep_view() == old(texts).deep_view().push(text@),
{
    texts.push(String::from_str(text));
    assert(texts.deep_view() =~= old(texts).deep_view().push(text@));
}

/// A copy of a list of texts.
pub fn copy_texts(texts: &Vec<String>) -> (copy: Vec<String>)
    ensures
        copy.deep_view() == texts.deep_view(),
{
    let mut copy: Vec<String> = Vec::new();
    let mut index: usize = 0;
    while index < texts.len()
        invariant
            index <= texts.len(),
            copy.deep_view() == texts.deep_view().take(index as int),
        decreases texts.len() - index,
    {
        let ghost before = copy.deep_view();
        let text = texts[index].clone();
        copy.push(text);
        index += 1;
        assert(copy.deep_view() =~= before.push(text@));
        assert(copy.deep_view() =~= texts.deep_view().take(index as int));
    }
    assert(copy.deep_view() =~= texts.deep_view());
    copy
}

/// The character that writes the digit `d` in base ten.
pub open spec fn digit_char(d: nat) -> char {
    if d == 0 {
        '0'
    } else if d == 1 {
        '1'
    } else if d == 2 {
        '2'
    } else if d == 3 {
        '3'
    } else if d == 4 {
        '4'
    } else if d == 5 {
        '5'
    } else if d == 6 {
        '6'
    } else if d == 7 {
        '7'
    } else if d == 8 {
        '8'
    } else {
        '9'
    }
}

/// `n` written in base ten, most significant digit first, without padding.
pub open spec fn decimal_text(n: nat) -> Seq<char>
    decreases n,
{
    if n < 10 {
        seq![digit_char(n)]
    } else {
        decimal_text(n / 10).push(digit_char(n % 10))
    }
}

fn digit_str(d: usize) -> (s: &'static str)
    requires
        d < 10,
    ensures
        s@ == seq![digit_char(d as nat)],
{
    proof {
        reveal_strlit("0");
        reveal_strlit("1");
        reveal_strlit("2");
        reveal_strlit("3");
        reveal_strlit("4");
        reveal_strlit("5");
        reveal_strlit("6");
        reveal_strlit("7");
        reveal_strlit("8");
        reveal_strlit("9");
    }
    let s = if d == 0 {
        "0"
    } else if d == 1 {
        "1"
    } else if d == 2 {
        "2"
    } else if d == 3 {
        "3"
    } else if d == 4 {
        "4"
    } else if d == 5 {
        "5"
    } else if d == 6 {
        "6"
    } else if d == 7 {
        "7"
    } else if d == 8 {
        "8"
    } else {
        "9"
    };
    assert(s@ =~= seq![digit_char(d as nat)]);
    s
}

/// Writes `n` in base ten.
pub fn decimal(n: usize) -> (text: String)
    ensures
        text@ == decimal_text(n as nat),
    decreases n,
{
    if n < 10 {
        String::from_str(digit_str(n))
    } else {
        let mut text = decimal(n / 10);
        text.append(digit_str(n % 10));
        assert(text@ =~= decimal_text(n as nat));
        text
    }
}

/// The characters of `text`, in order.
pub fn characters(text: &str) -> (chars: Vec<char>)
    ensures
        chars@ == text@,
{
    let mut chars: Vec<char> = Vec::new();
    let mut rest = text.chars();
    loop
        invariant
            chars@ + rest.remaining() == text@,
            rest.obeys_prophetic_iter_laws(),
        ensures
            chars@ == text@,
        decreases text@.len() - chars@.len(),
    {
        match rest.next() {
            Some(c) => {
                chars.push(c);
                assert(chars@ + rest.remaining() =~= text@);
            },
            None => {
                assert(chars@ =~= text@);
                break ;
            },
        }
    }
    chars
}

/// Whether `c` is white space: a character with the Unicode property
/// White_Space.
pub open spec fn is_white_space(c: char) -> bool {
    let code: u32 = c as u32;
    ||| 0x09 <= code <= 0x0D
    ||| code == 0x20
    ||| code == 0x85
    ||| code == 0xA0
    ||| code == 0x1680
    ||| 0x2000 <= code <= 0x200A
    ||| code == 0x2028
    ||| code == 0x2029
    ||| code == 0x202F
    ||| code == 0x205F
    ||| code == 0x3000
}

/// The first position at or after `from` that holds no white space.
pub open spec fn skip_white_space(text: Seq<char>, from: int) -> int
    decreases text.len() - from,
{
    if 0 <= from < text.len() && is_white_space(text[from]) {
        skip_white_space(text, from + 1)
    } else {
        from
    }
}

/// The end of the text that is left of `text[floor..to]` once the white space
/// at its end is gone.
pub open spec fn drop_white_space(text: Seq<char>, floor: int, to: int) -> int
    decreases to - floor,
{
    if floor < to <= text.len() && is_white_space(text[to - 1]) {
        drop_white_space(text, floor, to - 1)
    } else {
        to
    }
}

/// `text` without the white space at its start and at its end.
pub open spec fn trimmed(text: Seq<char>) -> Seq<char> {
    let start = skip_white_space(text, 0);
    text.subrange(start, drop_white_space(text, start, text.len() as int))
}

/// The first position at or after `from` that does not hold `c`.
pub open spec fn skip_char(text: Seq<char>, c: char, from: int) -> int
    decreases text.len() - from,
{
    if 0 <= from < text.len() && text[from] == c {
        skip_char(text, c, from + 1)
    } else {
        from
    }
}

/// `text` without the run of `c` at its start.
pub open spec fn without_leading(text: Seq<char>, c: char) -> Seq<char> {
    text.subrange(skip_char(text, c, 0), text.len() as int)
}

/// The first position at or after `from` that holds `c`, or the length of
/// `text` where none does.
pub open spec fn find_char(text: Seq<char>, c: char, from: int) -> int
    decreases text.len() - from,
{
    if 0 <= from < text.len() && text[from] != c {
        find_char(text, c, from + 1)
    } else {
        from
    }
}

/// The part of `text` before the first `c`; all of it where there is none.
pub open spec fn first_field(text: Seq<char>, c: char) -> Seq<char> {
    text.subrange(0, find_char(text, c, 0))
}

/// What trimming comes to: the trimmed text is the part of `text` between
/// two positions; all that stands before the first and after the second is
/// white space; and what is left, if anything, neither begins nor ends with
/// white space.
pub proof fn trimmed_text_is_the_inner_part(text: Seq<char>)
    ensures
        ({
            let start = skip_white_space(text, 0);
            let end = drop_white_space(text, start, text.len() as int);
            &&& 0 <= start <= end <= text.len()
            &&& trimmed(text) == text.subrange(start, end)
            &&& forall|i: int| 0 <= i < start ==> is_white_space(#[trigger] text[i])
            &&& forall|i: int| end <= i < text.len() ==> is_white_space(#[trigger] text[i])
            &&& start < end ==> !is_white_space(text[start]) && !is_white_space(text[end - 1])
        }),
{
    white_space_is_skipped(text, 0);
    white_space_is_dropped(text, skip_white_space(text, 0), text.len() as int);
}

/// Only white space is skipped, and skipping stops at the first character
/// that is none.
pub proof fn white_space_is_skipped(text: Seq<char>, from: int)
    requires
        0 <= from <= text.len(),
    ensures
        from <= skip_white_space(text, from) <= text.len(),
        forall|i: int| from <= i < skip_white_space(text, from) ==> is_white_space(#[trigger] text[i]),
        skip_white_space(text, from) < text.len() ==> !is_white_space(
            text[skip_white_space(text, from)],
        ),
    decreases text.len() - from,
{
    if from < text.len() && is_white_space(text[from]) {
        white_space_is_skipped(text, from + 1);
    }
}

/// Only white space is dropped, and dropping stops at the last character that
/// is none.
pub proof fn white_space_is_dropped(text: Seq<char>, floor: int, to: int)
    requires
        0 <= floor <= to <= text.len(),
    ensures
        floor <= drop_white_space(text, floor, to) <= to,
        forall|i: int|
            drop_white_space(text, floor, to) <= i < to ==> is_white_space(#[trigger] text[i]),
        floor < drop_white_space(text, floor, to) ==> !is_white_space(
            text[drop_white_space(text, floor, to) - 1],
        ),
    decreases to - floor,
{
    if floor < to && is_white_space(text[to - 1]) {
        white_space_is_dropped(text, floor, to - 1);
    }
}

/// What stripping comes to: `text` is a run of `c` followed by the stripped
/// text, which does not begin with `c`.
pub proof fn stripped_text_follows_the_run(text: Seq<char>, c: char, from: int)
    requires
        0 <= from <= text.len(),
    ensures
        from <= skip_char(text, c, from) <= text.len(),
        forall|i: int| from <= i < skip_char(text, c, from) ==> #[trigger] text[i] == c,
        skip_char(text, c, from) < text.len() ==> text[skip_char(text, c, from)] != c,
        from == 0 ==> without_leading(text, c).len() == 0 || without_leading(text, c)[0] != c,
    decreases text.len() - from,
{
    if from < text.len() && text[from] == c {
        stripped_text_follows_the_run(text, c, from + 1);
    }
}

/// What the first field comes to: it holds no `c`, and it ends where the
/// first `c` of `text` stands, or where `text` ends.
pub proof fn first_field_ends_at_the_separator(text: Seq<char>, c: char, from: int)
    requires
        0 <= from <= text.len(),
    ensures
        from <= find_char(text, c, from) <= text.len(),
        forall|i: int| from <= i < find_char(text, c, from) ==> #[trigger] text[i] != c,
        find_char(text, c, from) < text.len() ==> text[find_char(text, c, from)] == c,
        from == 0 ==> forall|i: int|
            0 <= i < first_field(text, c).len() ==> #[trigger] first_field(text, c)[i] != c,
    decreases text.len() - from,
{
    if from < text.len() && text[from] != c {
        first_field_ends_at_the_separator(text, c, from + 1);
    }
}

fn white_space(c: char) -> (yes: bool)
    ensures
        yes == is_white_space(c),
{
    let code: u32 = c as u32;
    (0x09 <= code && code <= 0x0D) || code == 0x20 || code == 0x85 || code == 0xA0 || code
        == 0x1680 || (0x2000 <= code && code <= 0x200A) || code == 0x2028 || code == 0x2029
        || code == 0x202F || code == 0x205F || code == 0x3000
}

/// `text` without the white space around it.
pub fn trim(text: &str) -> (inner: &str)
    ensures
        inner@ == trimmed(text@),
{
    let chars = characters(text);
    let mut start: usize = 0;
    while start < chars.len() && white_space(chars[start])
        invariant
            start <= chars.len(),
            chars@ == text@,
            skip_white_space(text@, 0) == skip_white_space(text@, start as int),
        decreases chars.len() - start,
    {
        start += 1;
    }
    let mut end: usize = chars.len();
    while start < end && white_space(chars[end - 1])
        invariant
            start <= end <= chars.len(),
            chars@ == text@,
            drop_white_space(text@, start as int, text@.len() as int) == drop_white_space(
                text@,
                start as int,
                end as int,
            ),
        decreases end - start,
    {
        end -= 1;
    }
    text.substring_char(start, end)
}

/// `text` without the run of `c` at its start.
pub fn strip_leading(text: &str, c: char) -> (rest: &str)
    ensures
        rest@ == without_leading(text@, c),
{
    let chars = characters(text);
    let mut start: usize = 0;
    while start < chars.len() && chars[start] == c
        invariant
            start <= chars.len(),
            chars@ == text@,
            skip_char(text@, c, 0) == skip_char(text@, c, start as int),
        decreases chars.len() - start,
    {
        start += 1;
    }
    text.substring_char(start, chars.len())
}

/// The part of `text` before the first `c`.
pub fn leading_field(text: &str, c: char) -> (field: &str)
    ensures
        field@ == first_field(text@, c),
{
    let chars = characters(text);
    let mut end: usize = 0;
    while end < chars.len() && chars[end] != c
        invariant
            end <= chars.len(),
            chars@ == text@,
            find_char(text@, c, 0) == find_char(text@, c, end as int),
        decreases chars.len() - end,
    {
        end += 1;
    }
    text.substring_char(0, end)
}

/// Whether `c` is one of the digits `0` to `9`.
pub open spec fn is_digit(c: char) -> bool {
    0x30 <= c as u32 <= 0x39
}

/// The number that the digit `c` stands for.
pub open spec fn digit_value(c: char) -> nat {
    if is_digit(c) {
        (c as u32 - 0x30) as nat
    } else {
        0
    }
}

/// The number that `digits` writes in base ten.
pub open spec fn digits_value(digits: Seq<char>) -> nat
    decreases digits.len(),
{
    if digits.len() == 0 {
        0
    } else {
        digits_value(digits.drop_last()) * 10 + digit_value(digits.last())
    }
}

/// Whether every character of `text` is a digit.
pub open spec fn all_digits(text: Seq<char>) -> bool {
    forall|i: int| 0 <= i < text.len() ==> is_digit(#[trigger] text[i])
}

/// `text` without the plus sign that may stand at its start.
pub open spec fn without_plus_sign(text: Seq<char>) -> Seq<char> {
    if text.len() > 0 && text[0] == '+' {
        text.drop_first()
    } else {
        text
    }
}

/// The number that `text` writes: an optional plus sign, then one or more
/// digits whose value fits in 32 bits. Any other text writes none.
pub open spec fn parsed_u32(text: Seq<char>) -> Option<u32> {
    let digits = without_plus_sign(text);
    if digits.len() > 0 && all_digits(digits) && digits_value(digits) <= u32::MAX {
        Some(digits_value(digits) as u32)
    } else {
        None
    }
}

/// More digits never write a smaller number.
pub proof fn digits_value_grows(digits: Seq<char>, shorter: int)
    requires
        0 <= shorter <= digits.len(),
    ensures
        digits_value(digits.take(shorter)) <= digits_value(digits),
    decreases digits.len() - shorter,
{
    if shorter < digits.len() {
        digits_value_grows(digits, shorter + 1);
        assert(digits.take(shorter + 1).drop_last() =~= digits.take(shorter));
    } else {
        assert(digits.take(shorter) =~= digits);
    }
}

/// Writing a number and reading it again gives the number: its decimal text
/// is made of digits only, and they write the number.
pub proof fn decimal_text_writes_the_number(n: nat)
    ensures
        decimal_text(n).len() > 0,
        all_digits(decimal_text(n)),
        digits_value(decimal_text(n)) == n,
        n <= u32::MAX ==> parsed_u32(decimal_text(n)) == Some(n as u32),
    decreases n,
{
    if n >= 10 {
        decimal_text_writes_the_number(n / 10);
        let text = decimal_text(n);
        assert(text.drop_last() =~= decimal_text(n / 10));
        assert(text.last() == digit_char(n % 10));
        assert(is_digit(digit_char(n % 10)) && digit_value(digit_char(n % 10)) == n % 10);
        assert forall|i: int| 0 <= i < text.len() implies is_digit(#[trigger] text[i]) by {
            if i < text.len() - 1 {
                assert(text[i] == decimal_text(n / 10)[i]);
            }
        }
    } else {
        let text = decimal_text(n);
        assert(text.drop_last() =~= Seq::<char>::empty());
        assert(is_digit(digit_char(n)) && digit_value(digit_char(n)) == n);
        assert(digits_value(text.drop_last()) == 0);
    }
    assert(decimal_text(n)[0] != '+');
}

/// Reads the number that `text` writes.
pub fn parse_u32(text: &str) -> (number: Option<u32>)
    ensures
        number == parsed_u32(text@),
{
    let chars = characters(text);
    let start: usize = if chars.len() > 0 && chars[0] == '+' {
        1
    } else {
        0
    };
    let ghost digits = without_plus_sign(text@);
    assert(digits =~= text@.subrange(start as int, text@.len() as int));
    if start == chars.len() {
        return None;
    }
    let mut value: u32 = 0;
    let mut i: usize = start;
    while i < chars.len()
        invariant
            start <= i <= chars.len(),
            chars@ == text@,
            digits == text@.subrange(start as int, text@.len() as int),
            digits == without_plus_sign(text@),
            value == digits_value(digits.take(i - start)),
            forall|j: int| 0 <= j < i - start ==> is_digit(#[trigger] digits[j]),
        decreases chars.len() - i,
    {
        let code: u32 = chars[i] as u32;
        if code < 0x30 || code > 0x39 {
            assert(!is_digit(digits[i - start]));
            return None;
        }
        let digit: u32 = code - 0x30;
        proof {
            assert(digits.take(i - start + 1).drop_last() =~= digits.take(i - start));
            assert(digits.take(i - start + 1).last() == chars@[i as int]);
            digits_value_grows(digits, i - start + 1);
        }
        if value > (u32::MAX - digit) / 10 {
            return None;
        }
        value = value * 10 + digit;
        i += 1;
    }
    assert(digits.take(i - start) =~= digits);
    Some(value)
}

} // verus!
