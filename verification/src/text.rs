//! Character-level helpers on strings: comparison, prefixes, trimming,
//! splitting, and decimal numbers.

use vstd::prelude::*;
use vstd::string::*;

verus! {

/// Whether `c` has the Unicode `White_Space` property: the controls from
/// tab to carriage return, the space, the next-line control, the no-break
/// space, and the spaces and separators of the general punctuation blocks.
pub open spec fn unicode_white_space(c: char) -> bool {
    ||| '\u{0009}' <= c <= '\u{000D}'
    ||| c == '\u{0020}'
    ||| c == '\u{0085}'
    ||| c == '\u{00A0}'
    ||| c == '\u{1680}'
    ||| '\u{2000}' <= c <= '\u{200A}'
    ||| c == '\u{2028}'
    ||| c == '\u{2029}'
    ||| c == '\u{202F}'
    ||| c == '\u{205F}'
    ||| c == '\u{3000}'
}

/// The Unicode lowercase form of `text`.
pub uninterp spec fn lowercase_of(text: Seq<char>) -> Seq<char>;

/// Whether `text` begins with `prefix`.
pub open spec fn has_prefix(text: Seq<char>, prefix: Seq<char>) -> bool {
    prefix.len() <= text.len() && text.subrange(0, prefix.len() as int) == prefix
}

/// Whether every character of `text` is white space.
pub open spec fn blank(text: Seq<char>) -> bool {
    forall|i: int| 0 <= i < text.len() ==> unicode_white_space(#[trigger] text[i])
}

/// How many characters at the start of `text` are white space.
pub open spec fn leading_white(text: Seq<char>) -> nat
    decreases text.len(),
{
    if text.len() > 0 && unicode_white_space(text[0]) {
        1 + leading_white(text.skip(1))
    } else {
        0
    }
}

/// How many characters at the end of `text` are white space.
pub open spec fn trailing_white(text: Seq<char>) -> nat
    decreases text.len(),
{
    if text.len() > 0 && unicode_white_space(text.last()) {
        1 + trailing_white(text.drop_last())
    } else {
        0
    }
}

/// `text` without its leading and trailing white space.
pub open spec fn trimmed(text: Seq<char>) -> Seq<char> {
    let rest = text.skip(leading_white(text) as int);
    rest.take(rest.len() - trailing_white(rest))
}

/// The pieces of `text` between its occurrences of `sep`; a text without
/// `sep` is one piece, and so is the empty text.
pub open spec fn split_on(text: Seq<char>, sep: char) -> Seq<Seq<char>>
    decreases text.len(),
{
    if text.len() == 0 {
        seq![Seq::<char>::empty()]
    } else {
        let before = split_on(text.drop_last(), sep);
        if text.last() == sep {
            before.push(Seq::<char>::empty())
        } else {
            before.update(before.len() - 1, before.last().push(text.last()))
        }
    }
}

/// The character that writes the digit `d`.
pub open spec fn digit_char(d: int) -> char {
    (d + 48) as u8 as char
}

/// Whether `c` is one of `0` to `9`.
pub open spec fn is_digit(c: char) -> bool {
    '0' <= c <= '9'
}

/// Whether `text` holds digits only.
pub open spec fn all_digits(text: Seq<char>) -> bool {
    forall|i: int| 0 <= i < text.len() ==> is_digit(#[trigger] text[i])
}

/// The number that the digits of `text` write in base ten.
pub open spec fn digits_value(text: Seq<char>) -> nat
    decreases text.len(),
{
    if text.len() == 0 {
        0
    } else {
        (digits_value(text.drop_last()) * 10 + (text.last() as int - 48)) as nat
    }
}

/// `n` in base ten, without leading zeros.
pub open spec fn decimal_nat(n: nat) -> Seq<char>
    decreases n,
{
    if n < 10 {
        seq![digit_char(n as int)]
    } else {
        decimal_nat(n / 10).push(digit_char((n % 10) as int))
    }
}

/// `n` in base ten, with a minus sign where it is negative.
pub open spec fn decimal(n: int) -> Seq<char> {
    if n < 0 {
        seq!['-'] + decimal_nat((-n) as nat)
    } else {
        decimal_nat(n as nat)
    }
}

/// The integer that `text` writes, if it is a decimal number between `lo`
/// and `hi`: an optional `+` (or `-`, where `signed`), then one digit or more.
pub open spec fn parsed_decimal(text: Seq<char>, signed: bool, lo: int, hi: int) -> Option<int> {
    let negative = signed && text.len() > 0 && text[0] == '-';
    let body = if text.len() > 0 && (text[0] == '+' || negative) {
        text.skip(1)
    } else {
        text
    };
    let value = if negative {
        -(digits_value(body) as int)
    } else {
        digits_value(body) as int
    };
    if body.len() > 0 && all_digits(body) && lo <= value <= hi {
        Some(value)
    } else {
        None
    }
}

/// Whether `c` is white space.
pub fn is_white_space(c: char) -> (b: bool)
    ensures
        b == unicode_white_space(c),
{
    ('\u{0009}' <= c && c <= '\u{000D}') || c == '\u{0020}' || c == '\u{0085}' || c
        == '\u{00A0}' || c == '\u{1680}' || ('\u{2000}' <= c && c <= '\u{200A}') || c
        == '\u{2028}' || c == '\u{2029}' || c == '\u{202F}' || c == '\u{205F}' || c
        == '\u{3000}'
}

/// `String::push`: appends `c` to the end of `text`.
#[verifier::external_body]
pub(crate) fn push_char(text: &mut String, c: char)
    ensures
        final(text)@ == old(text)@.push(c),
{
    text.push(c)
}

/// `str::to_lowercase`: the lowercase form of `text` as a new string.
#[verifier::external_body]
pub(crate) fn to_lowercase(text: &str) -> (out: String)
    ensures
        out@ == lowercase_of(text@),
{
    text.to_lowercase()
}

/// The characters of `text`, in order.
pub fn chars_of(text: &str) -> (out: Vec<char>)
    ensures
        out@ == text@,
{
    let mut out: Vec<char> = Vec::new();
    for c in it: text.chars()
        invariant
            out@ == it.seq().take(it.index() as int),
            it.seq() == text@,
    {
        out.push(c);
    }
    out
}

/// The string made of `chars[from..to]`.
pub(crate) fn text_of(chars: &Vec<char>, from: usize, to: usize) -> (out: String)
    requires
        from <= to <= chars.len(),
    ensures
        out@ == chars@.subrange(from as int, to as int),
{
    let mut out = String::new();
    let mut i: usize = from;
    while i < to
        invariant
            from <= i <= to <= chars.len(),
            out@ == chars@.subrange(from as int, i as int),
        decreases to - i,
    {
        push_char(&mut out, chars[i]);
        i += 1;
    }
    out
}

/// Whether two strings hold the same characters.
pub fn same_text(a: &str, b: &str) -> (same: bool)
    ensures
        same == (a@ == b@),
{
    let x = String::from_str(a);
    let y = String::from_str(b);
    x == y
}

/// Whether `text` begins with `prefix`.
pub fn starts_with(text: &str, prefix: &str) -> (yes: bool)
    ensures
        yes == has_prefix(text@, prefix@),
{
    let t = chars_of(text);
    let p = chars_of(prefix);
    if p.len() > t.len() {
        return false;
    }
    let mut i: usize = 0;
    while i < p.len()
        invariant
            i <= p.len() <= t.len(),
            t@ == text@,
            p@ == prefix@,
            t@.subrange(0, i as int) == p@.subrange(0, i as int),
        decreases p.len() - i,
    {
        if t[i] != p[i] {
            assert(text@.subrange(0, prefix@.len() as int)[i as int] != prefix@[i as int]);
            return false;
        }
        assert(t@.subrange(0, i + 1) == t@.subrange(0, i as int).push(t@[i as int]));
        assert(p@.subrange(0, i + 1) == p@.subrange(0, i as int).push(p@[i as int]));
        i += 1;
    }
    assert(p@.subrange(0, p@.len() as int) == p@);
    true
}

/// What follows `prefix` in `text`, if `text` begins with it.
pub fn strip_prefix(text: &str, prefix: &str) -> (rest: Option<String>)
    ensures
        match rest {
            Some(r) => has_prefix(text@, prefix@) && r@ == text@.skip(prefix@.len() as int),
            None => !has_prefix(text@, prefix@),
        },
{
    if starts_with(text, prefix) {
        let t = chars_of(text);
        let n = prefix.unicode_len();
        Some(text_of(&t, n, t.len()))
    } else {
        None
    }
}

/// `a` followed by `b`.
pub fn join(a: &str, b: &str) -> (out: String)
    ensures
        out@ == a@ + b@,
{
    let mut out = String::from_str(a);
    out.append(b);
    out
}

/// Whether `text` is empty or holds white space only.
pub fn is_blank(text: &str) -> (yes: bool)
    ensures
        yes == blank(text@),
{
    let t = chars_of(text);
    let mut i: usize = 0;
    while i < t.len()
        invariant
            i <= t.len(),
            t@ == text@,
            blank(t@.take(i as int)),
        decreases t.len() - i,
    {
        if !is_white_space(t[i]) {
            return false;
        }
        assert forall|k: int| 0 <= k < i + 1 implies unicode_white_space(
            #[trigger] t@.take(i + 1)[k],
        ) by {
            if k < i {
                assert(t@.take(i as int)[k] == t@[k]);
            }
        }
        i += 1;
    }
    assert(t@.take(t@.len() as int) == t@);
    true
}

/// `text` without the white space at its two ends.
pub fn trim(text: &str) -> (out: String)
    ensures
        out@ == trimmed(text@),
{
    let t = chars_of(text);
    let mut start: usize = 0;
    assert(t@.skip(0) == t@);
    while start < t.len() && is_white_space(t[start])
        invariant
            start <= t.len(),
            leading_white(t@) == start + leading_white(t@.skip(start as int)),
        decreases t.len() - start,
    {
        assert(t@.skip(start as int).skip(1) == t@.skip(start + 1));
        start += 1;
    }
    let ghost rest = t@.skip(start as int);
    let mut end: usize = t.len();
    assert(rest.take(t.len() - start) == rest);
    while end > start && is_white_space(t[end - 1])
        invariant
            start <= end <= t.len(),
            rest == t@.skip(start as int),
            trailing_white(rest) == (t.len() - end) + trailing_white(rest.take(end - start)),
        decreases end,
    {
        assert(rest.take(end - start).drop_last() == rest.take(end - start - 1));
        end -= 1;
    }
    assert(rest.take(end - start) == t@.subrange(start as int, end as int));
    text_of(&t, start, end)
}

/// The pieces of `text` between its commas.
pub fn split_commas(text: &str) -> (parts: Vec<String>)
    ensures
        parts.deep_view() == split_on(text@, ','),
{
    let t = chars_of(text);
    let mut parts: Vec<String> = Vec::new();
    let mut current = String::new();
    let mut i: usize = 0;
    while i < t.len()
        invariant
            i <= t.len(),
            parts.deep_view().push(current@) == split_on(t@.take(i as int), ','),
        decreases t.len() - i,
    {
        let ghost before = split_on(t@.take(i as int), ',');
        assert(t@.take(i + 1).drop_last() == t@.take(i as int));
        if t[i] == ',' {
            let ghost old_parts = parts.deep_view();
            parts.push(current);
            assert(parts.deep_view() == old_parts.push(current@));
            current = String::new();
        } else {
            push_char(&mut current, t[i]);
            assert(parts.deep_view().push(current@) == before.update(
                before.len() - 1,
                before.last().push(t@[i as int]),
            ));
        }
        i += 1;
    }
    assert(t@.take(t@.len() as int) == t@);
    let ghost old_parts = parts.deep_view();
    parts.push(current);
    assert(parts.deep_view() == old_parts.push(current@));
    parts
}

/// Appends `n` in base ten to `out`.
fn push_decimal_nat(out: &mut String, n: u64)
    ensures
        final(out)@ == old(out)@ + decimal_nat(n as nat),
    decreases n,
{
    if n >= 10 {
        push_decimal_nat(out, n / 10);
    }
    let d: u8 = (n % 10) as u8;
    push_char(out, (48u8 + d) as char);
    assert(final(out)@ == old(out)@ + decimal_nat(n as nat)) by {
        if n >= 10 {
            assert(old(out)@ + decimal_nat((n / 10) as nat).push(digit_char((n % 10) as int)) == (
            old(out)@ + decimal_nat((n / 10) as nat)).push(digit_char((n % 10) as int)));
        } else {
            assert(old(out)@ + seq![digit_char(n as int)] == old(out)@.push(digit_char(n as int)));
        }
    }
}

/// `n` written in base ten.
pub fn decimal_text(n: i64) -> (out: String)
    ensures
        out@ == decimal(n as int),
{
    let mut out = String::new();
    if n < 0 {
        push_char(&mut out, '-');
        let magnitude: u64 = (-(n as i128)) as u64;
        assert(out@ == seq!['-']);
        push_decimal_nat(&mut out, magnitude);
    } else {
        push_decimal_nat(&mut out, n as u64);
        assert(Seq::<char>::empty() + decimal_nat(n as nat) == decimal_nat(n as nat));
    }
    out
}

/// A prefix of a run of digits writes no larger a number than the whole run.
proof fn lemma_digits_value_prefix(text: Seq<char>, k: int)
    requires
        all_digits(text),
        0 <= k <= text.len(),
    ensures
        digits_value(text.take(k)) <= digits_value(text),
    decreases text.len(),
{
    if k < text.len() {
        assert(text.drop_last().take(k) == text.take(k));
        assert(is_digit(text[text.len() - 1]));
        lemma_digits_value_prefix(text.drop_last(), k);
    } else {
        assert(text.take(k) == text);
    }
}

/// The number that the digits `chars[start..]` write, if they are all
/// digits and write no more than 2^63.
fn read_digits(chars: &Vec<char>, start: usize) -> (value: Option<u128>)
    requires
        start <= chars.len(),
    ensures
        match value {
            Some(v) => all_digits(chars@.skip(start as int)) && v == digits_value(
                chars@.skip(start as int),
            ) && v <= 0x8000_0000_0000_0000,
            None => !all_digits(chars@.skip(start as int)) || digits_value(
                chars@.skip(start as int),
            ) > 0x8000_0000_0000_0000,
        },
{
    let ghost body = chars@.skip(start as int);
    let mut acc: u128 = 0;
    let mut i: usize = start;
    while i < chars.len()
        invariant
            start <= i <= chars.len(),
            body == chars@.skip(start as int),
            all_digits(body.take(i - start)),
            acc == digits_value(body.take(i - start)),
            acc <= 0x8000_0000_0000_0000,
        decreases chars.len() - i,
    {
        let c = chars[i];
        assert(body[i - start] == c);
        if !(c >= '0' && c <= '9') {
            return None;
        }
        let ghost prefix = body.take(i - start + 1);
        assert(prefix.drop_last() == body.take(i - start));
        assert forall|k: int| 0 <= k < prefix.len() implies is_digit(#[trigger] prefix[k]) by {
            if k < i - start {
                assert(body.take(i - start)[k] == prefix[k]);
            }
        }
        acc = acc * 10 + (c as u128 - 48);
        if acc > 0x8000_0000_0000_0000 {
            proof {
                if all_digits(body) {
                    lemma_digits_value_prefix(body, i - start + 1);
                }
            }
            return None;
        }
        i += 1;
    }
    assert(body.take(body.len() as int) == body);
    Some(acc)
}

/// The integer that `text` writes in base ten, if it writes one between `lo`
/// and `hi`.
pub fn parse_decimal(text: &str, signed: bool, lo: i64, hi: i64) -> (value: Option<i64>)
    ensures
        match value {
            Some(v) => parsed_decimal(text@, signed, lo as int, hi as int) == Some(v as int),
            None => parsed_decimal(text@, signed, lo as int, hi as int) is None,
        },
{
    let chars = chars_of(text);
    let negative = signed && chars.len() > 0 && chars[0] == '-';
    let start: usize = if chars.len() > 0 && (chars[0] == '+' || negative) {
        1
    } else {
        0
    };
    assert(chars@.skip(0) == chars@);
    if start == chars.len() {
        return None;
    }
    match read_digits(&chars, start) {
        None => None,
        Some(magnitude) => {
            let value: i128 = if negative {
                -(magnitude as i128)
            } else {
                magnitude as i128
            };
            if lo as i128 <= value && value <= hi as i128 {
                Some(value as i64)
            } else {
                None
            }
        },
    }
}

/// What `decimal_nat` writes is a run of digits, at least one, that reads
/// back as the same number.
pub proof fn lemma_decimal_nat_reads_back(n: nat)
    ensures
        decimal_nat(n).len() > 0,
        all_digits(decimal_nat(n)),
        digits_value(decimal_nat(n)) == n,
    decreases n,
{
    if n < 10 {
        let s = decimal_nat(n);
        assert(s.drop_last().len() == 0);
        assert(digits_value(s.drop_last()) == 0);
    } else {
        lemma_decimal_nat_reads_back(n / 10);
        let s = decimal_nat(n);
        assert(s.drop_last() == decimal_nat(n / 10));
        assert forall|k: int| 0 <= k < s.len() implies is_digit(#[trigger] s[k]) by {
            if k < s.len() - 1 {
                assert(s[k] == decimal_nat(n / 10)[k]);
            }
        }
    }
}

/// Writing an integer in base ten and reading the text back gives the
/// integer again, provided it lies within the bounds of the reader.
pub proof fn lemma_decimal_round_trip(n: int, lo: int, hi: int)
    requires
        lo <= n <= hi,
    ensures
        parsed_decimal(decimal(n), true, lo, hi) == Some(n),
{
    if n < 0 {
        lemma_decimal_nat_reads_back((-n) as nat);
        assert(decimal(n).skip(1) == decimal_nat((-n) as nat));
    } else {
        lemma_decimal_nat_reads_back(n as nat);
        assert(is_digit(decimal_nat(n as nat)[0]));
    }
}

/// A text whose first `count` characters are white space, and whose next
/// one, if it has one, is not, has `count` leading white-space characters.
pub proof fn lemma_leading_white(text: Seq<char>, count: int)
    requires
        0 <= count <= text.len(),
        forall|k: int| 0 <= k < count ==> unicode_white_space(#[trigger] text[k]),
        count < text.len() ==> !unicode_white_space(text[count]),
    ensures
        leading_white(text) == count,
    decreases count,
{
    if count > 0 {
        let rest = text.skip(1);
        assert forall|k: int| 0 <= k < count - 1 implies unicode_white_space(
            #[trigger] rest[k],
        ) by {
            assert(rest[k] == text[k + 1]);
        }
        if count - 1 < rest.len() {
            assert(rest[count - 1] == text[count]);
        }
        lemma_leading_white(rest, count - 1);
    }
}

/// A text whose last `count` characters are white space, and whose one
/// before them, if it has one, is not, has `count` trailing white-space
/// characters.
pub proof fn lemma_trailing_white(text: Seq<char>, count: int)
    requires
        0 <= count <= text.len(),
        forall|k: int| text.len() - count <= k < text.len() ==> unicode_white_space(
            #[trigger] text[k],
        ),
        count < text.len() ==> !unicode_white_space(text[text.len() - count - 1]),
    ensures
        trailing_white(text) == count,
    decreases count,
{
    if count > 0 {
        let rest = text.drop_last();
        assert forall|k: int| rest.len() - (count - 1) <= k < rest.len() implies unicode_white_space(
            #[trigger] rest[k],
        ) by {
            assert(rest[k] == text[k]);
        }
        if count - 1 < rest.len() {
            assert(rest[rest.len() - (count - 1) - 1] == text[text.len() - count - 1]);
        }
        lemma_trailing_white(rest, count - 1);
    }
}

/// Trimming leaves what lies between the white space at the two ends: if
/// all before `start` and all from `end` on is white space, and what lies
/// between begins and ends with a character that is not, that is what is
/// left.
pub proof fn lemma_trimmed_between(text: Seq<char>, start: int, end: int)
    requires
        0 <= start <= end <= text.len(),
        forall|k: int| 0 <= k < start ==> unicode_white_space(#[trigger] text[k]),
        forall|k: int| end <= k < text.len() ==> unicode_white_space(#[trigger] text[k]),
        start < end ==> !unicode_white_space(text[start]) && !unicode_white_space(
            text[end - 1],
        ),
    ensures
        trimmed(text) == text.subrange(start, end),
{
    if start == end {
        lemma_leading_white(text, text.len() as int);
        let rest = text.skip(text.len() as int);
        assert(rest.len() == 0);
        assert(trailing_white(rest) == 0);
        assert(rest.take(0) =~= text.subrange(start, end));
    } else {
        lemma_leading_white(text, start);
        let rest = text.skip(start);
        assert forall|k: int| rest.len() - (text.len() - end) <= k < rest.len() implies unicode_white_space(
            #[trigger] rest[k],
        ) by {
            assert(rest[k] == text[k + start]);
        }
        assert(rest[rest.len() - (text.len() - end) - 1] == text[end - 1]);
        lemma_trailing_white(rest, text.len() - end);
        assert(rest.take(end - start) =~= text.subrange(start, end));
    }
}

/// A text that begins and ends with a character that is no white space,
/// and the empty text, are left as they are by trimming.
pub proof fn lemma_trimmed_tight(text: Seq<char>)
    requires
        text.len() > 0 ==> !unicode_white_space(text[0]) && !unicode_white_space(text.last()),
    ensures
        trimmed(text) == text,
{
    lemma_trimmed_between(text, 0, text.len() as int);
    assert(text.subrange(0, text.len() as int) =~= text);
}

/// A text without the separator is one piece.
pub proof fn lemma_split_on_none(text: Seq<char>, sep: char)
    requires
        !text.contains(sep),
    ensures
        split_on(text, sep) == seq![text],
    decreases text.len(),
{
    if text.len() == 0 {
        assert(text =~= Seq::<char>::empty());
    } else {
        let before = text.drop_last();
        assert(text[text.len() - 1] != sep);
        assert forall|k: int| 0 <= k < before.len() implies before[k] != sep by {
            assert(before[k] == text[k]);
        }
        lemma_split_on_none(before, sep);
        assert(before.push(text.last()) =~= text);
        assert(seq![before].update(0, before.push(text.last())) =~= seq![text]);
    }
}

/// What follows the last separator of a text is its last piece, and the
/// pieces before it are those of what precedes that separator.
pub proof fn lemma_split_on_last(left: Seq<char>, right: Seq<char>, sep: char)
    requires
        !right.contains(sep),
    ensures
        split_on(left + seq![sep] + right, sep) == split_on(left, sep).push(right),
    decreases right.len(),
{
    let text = left + seq![sep] + right;
    if right.len() == 0 {
        assert(text.drop_last() =~= left);
        assert(text.last() == sep);
        assert(right =~= Seq::<char>::empty());
    } else {
        let shorter = right.drop_last();
        assert(right[right.len() - 1] != sep);
        assert forall|k: int| 0 <= k < shorter.len() implies shorter[k] != sep by {
            assert(shorter[k] == right[k]);
        }
        lemma_split_on_last(left, shorter, sep);
        assert(text.drop_last() =~= left + seq![sep] + shorter);
        assert(text.last() == right.last());
        assert(shorter.push(right.last()) =~= right);
        let before = split_on(left, sep).push(shorter);
        assert(before.update(before.len() - 1, before.last().push(right.last())) =~= split_on(
            left,
            sep,
        ).push(right));
    }
}

} // verus!
