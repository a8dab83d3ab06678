//! Text helpers: comparison, splitting, trimming and case folding of the
//! short strings that name buttons, keys and devices.

use vstd::prelude::*;
use vstd::string::*;

verus! {

/// Whether a character is white space in the sense of Unicode.
pub uninterp spec fn whitespace(c: char) -> bool;

/// The lower-case form of a text in the sense of Unicode.
pub uninterp spec fn lowercase_of(text: Seq<char>) -> Seq<char>;

/// `char::is_whitespace` of the standard library: says whether `c` has the
/// Unicode property White_Space. The contract only names that answer.
#[verifier::external_body]
fn is_whitespace(c: char) -> (answer: bool)
    ensures
        answer == whitespace(c),
{
    c.is_whitespace()
}

/// `str::to_lowercase` of the standard library: the lower-case equivalent of
/// `text` as a new string. The contract only names that string.
#[verifier::external_body]
pub(crate) fn lowercase(text: &str) -> (lowered: String)
    ensures
        lowered@ == lowercase_of(text@),
{
    text.to_lowercase()
}

/// An ASCII capital letter turned into its small letter, any other
/// character as it is.
pub open spec fn ascii_lower(c: char) -> char {
    if 'A' <= c && c <= 'Z' {
        ((c as u8) + 32) as char
    } else {
        c
    }
}

/// Whether two texts are equal when ASCII letters are compared without
/// regard to case.
pub open spec fn same_ignoring_ascii_case(a: Seq<char>, b: Seq<char>) -> bool {
    a.len() == b.len() && forall|i: int|
        0 <= i < a.len() ==> ascii_lower(#[trigger] a[i]) == ascii_lower(b[i])
}

/// Whether a character is one of the ten ASCII digits.
pub open spec fn is_digit(c: char) -> bool {
    '0' <= c && c <= '9'
}

/// Whether a text takes exactly one byte in UTF-8.
pub open spec fn one_byte(text: Seq<char>) -> bool {
    text.len() == 1 && (text[0] as u32) < 0x80
}

/// Whether a text takes more than one byte in UTF-8.
pub open spec fn over_one_byte(text: Seq<char>) -> bool {
    text.len() > 1 || (text.len() == 1 && (text[0] as u32) >= 0x80)
}

/// Where the first `sep` stands in `text`; the length of `text` if it holds
/// none.
pub open spec fn first_index_of(text: Seq<char>, sep: char) -> int
    decreases text.len(),
{
    if text.len() == 0 || text[0] == sep {
        0
    } else {
        1 + first_index_of(text.skip(1), sep)
    }
}

/// The pieces of `text` between occurrences of `sep`, in order. A text
/// without `sep` is one piece, and so is the empty text.
pub open spec fn split_spec(text: Seq<char>, sep: char) -> Seq<Seq<char>>
    decreases text.len(),
{
    let i = first_index_of(text, sep);
    if 0 <= i < text.len() {
        seq![text.take(i)] + split_spec(text.skip(i + 1), sep)
    } else {
        seq![text]
    }
}

/// How many characters of white space `text` begins with.
pub open spec fn leading_space(text: Seq<char>) -> int
    decreases text.len(),
{
    if text.len() == 0 || !whitespace(text[0]) {
        0
    } else {
        1 + leading_space(text.skip(1))
    }
}

/// How many characters of white space `text` ends with.
pub open spec fn trailing_space(text: Seq<char>) -> int
    decreases text.len(),
{
    if text.len() == 0 || !whitespace(text.last()) {
        0
    } else {
        1 + trailing_space(text.drop_last())
    }
}

/// `text` without the white space at its beginning and at its end.
pub open spec fn trimmed(text: Seq<char>) -> Seq<char> {
    let from = leading_space(text);
    if from >= text.len() {
        Seq::<char>::empty()
    } else {
        text.subrange(from, text.len() - trailing_space(text))
    }
}

/// The four small hexadecimal digits of `v`, highest first.
pub open spec fn hex4_spec(v: u16) -> Seq<char> {
    seq![
        hex_digit_spec((v / 4096) as u8),
        hex_digit_spec(((v / 256) % 16) as u8),
        hex_digit_spec(((v / 16) % 16) as u8),
        hex_digit_spec((v % 16) as u8),
    ]
}

/// The small hexadecimal digit for a value below sixteen.
pub open spec fn hex_digit_spec(d: u8) -> char {
    if d < 10 {
        (('0' as u8) + d) as char
    } else {
        (('a' as u8) + (d - 10)) as u8 as char
    }
}

proof fn lemma_first_index_bounds(text: Seq<char>, sep: char)
    ensures
        0 <= first_index_of(text, sep) <= text.len(),
        first_index_of(text, sep) < text.len() ==> text[first_index_of(text, sep)] == sep,
        forall|k: int| 0 <= k < first_index_of(text, sep) ==> text[k] != sep,
    decreases text.len(),
{
    if text.len() == 0 || text[0] == sep {
    } else {
        let rest = text.skip(1);
        lemma_first_index_bounds(rest, sep);
        assert forall|k: int| 0 <= k < first_index_of(text, sep) implies text[k] != sep by {
            if k > 0 {
                assert(rest[k - 1] == text[k]);
            }
        }
        if first_index_of(text, sep) < text.len() {
            assert(rest[first_index_of(rest, sep)] == text[first_index_of(text, sep)]);
        }
    }
}

proof fn lemma_first_index_is(text: Seq<char>, sep: char, i: int)
    requires
        0 <= i <= text.len(),
        forall|k: int| 0 <= k < i ==> text[k] != sep,
        i < text.len() ==> text[i] == sep,
    ensures
        first_index_of(text, sep) == i,
{
    lemma_first_index_bounds(text, sep);
}

proof fn lemma_leading_space_bounds(text: Seq<char>)
    ensures
        0 <= leading_space(text) <= text.len(),
        forall|k: int| 0 <= k < leading_space(text) ==> whitespace(text[k]),
        leading_space(text) < text.len() ==> !whitespace(text[leading_space(text)]),
    decreases text.len(),
{
    if text.len() == 0 || !whitespace(text[0]) {
    } else {
        let rest = text.skip(1);
        lemma_leading_space_bounds(rest);
        assert forall|k: int| 0 <= k < leading_space(text) implies whitespace(text[k]) by {
            if k > 0 {
                assert(rest[k - 1] == text[k]);
            }
        }
        if leading_space(text) < text.len() {
            assert(rest[leading_space(rest)] == text[leading_space(text)]);
        }
    }
}

proof fn lemma_trailing_space_bounds(text: Seq<char>)
    ensures
        0 <= trailing_space(text) <= text.len(),
        forall|k: int| text.len() - trailing_space(text) <= k < text.len() ==> whitespace(text[k]),
        trailing_space(text) < text.len() ==> !whitespace(
            text[text.len() - trailing_space(text) - 1],
        ),
    decreases text.len(),
{
    if text.len() == 0 || !whitespace(text.last()) {
    } else {
        let rest = text.drop_last();
        lemma_trailing_space_bounds(rest);
        assert forall|k: int|
            text.len() - trailing_space(text) <= k < text.len() implies whitespace(text[k]) by {
            if k < text.len() - 1 {
                assert(rest[k] == text[k]);
            }
        }
        if trailing_space(text) < text.len() {
            assert(rest[rest.len() - trailing_space(rest) - 1] == text[text.len() - trailing_space(
                text,
            ) - 1]);
        }
    }
}

/// Says whether two strings hold the same characters.
pub fn str_eq(a: &str, b: &str) -> (same: bool)
    ensures
        same == (a@ == b@),
{
    let n = a.unicode_len();
    if n != b.unicode_len() {
        return false;
    }
    let mut i: usize = 0;
    while i < n
        invariant
            i <= n,
            n == a@.len(),
            n == b@.len(),
            forall|k: int| 0 <= k < i ==> a@[k] == b@[k],
        decreases n - i,
    {
        if a.get_char(i) != b.get_char(i) {
            return false;
        }
        i += 1;
    }
    assert(a@ =~= b@);
    true
}

/// Turns an ASCII capital letter into its small letter.
pub fn to_ascii_lower(c: char) -> (lower: char)
    ensures
        lower == ascii_lower(c),
{
    if 'A' <= c && c <= 'Z' {
        ((c as u8) + 32) as char
    } else {
        c
    }
}

/// Says whether two strings are equal when ASCII letters are compared
/// without regard to case.
pub fn eq_ignore_ascii_case(a: &str, b: &str) -> (same: bool)
    ensures
        same == same_ignoring_ascii_case(a@, b@),
{
    let n = a.unicode_len();
    if n != b.unicode_len() {
        return false;
    }
    let mut i: usize = 0;
    while i < n
        invariant
            i <= n,
            n == a@.len(),
            n == b@.len(),
            forall|k: int| 0 <= k < i ==> ascii_lower(#[trigger] a@[k]) == ascii_lower(b@[k]),
        decreases n - i,
    {
        if to_ascii_lower(a.get_char(i)) != to_ascii_lower(b.get_char(i)) {
            return false;
        }
        i += 1;
    }
    true
}

/// Says whether `text` takes exactly one byte in UTF-8.
pub fn is_one_byte(text: &str) -> (one: bool)
    ensures
        one == one_byte(text@),
{
    text.unicode_len() == 1 && (text.get_char(0) as u32) < 0x80
}

/// Says whether `text` takes more than one byte in UTF-8.
pub fn is_over_one_byte(text: &str) -> (more: bool)
    ensures
        more == over_one_byte(text@),
{
    let n = text.unicode_len();
    n > 1 || (n == 1 && (text.get_char(0) as u32) >= 0x80)
}

/// Splits `text` at every `sep`.
pub fn split<'a>(text: &'a str, sep: char) -> (parts: Vec<&'a str>)
    ensures
        parts@.len() == split_spec(text@, sep).len(),
        forall|i: int| 0 <= i < parts@.len() ==> (#[trigger] parts@[i])@ == split_spec(text@, sep)[i],
{
    let n = text.unicode_len();
    let mut parts: Vec<&'a str> = Vec::new();
    let ghost mut found: Seq<Seq<char>> = Seq::empty();
    let mut start: usize = 0;
    let mut i: usize = 0;
    proof {
        assert(text@.skip(0) =~= text@);
        assert(found + split_spec(text@, sep) =~= split_spec(text@, sep));
    }
    while i < n
        invariant
            start <= i <= n,
            n == text@.len(),
            parts@.len() == found.len(),
            forall|k: int| 0 <= k < parts@.len() ==> (#[trigger] parts@[k])@ == found[k],
            split_spec(text@, sep) == found + split_spec(text@.skip(start as int), sep),
            forall|k: int| start <= k < i ==> text@[k] != sep,
        decreases n - i,
    {
        if text.get_char(i) == sep {
            let part = text.substring_char(start, i);
            proof {
                let rest = text@.skip(start as int);
                assert forall|k: int| 0 <= k < i - start implies rest[k] != sep by {
                    assert(rest[k] == text@[start + k]);
                }
                assert(rest[i - start] == sep);
                lemma_first_index_is(rest, sep, i - start);
                assert(rest.take(i - start) =~= text@.subrange(start as int, i as int));
                assert(rest.skip(i - start + 1) =~= text@.skip(i + 1));
                assert(found + (seq![part@] + split_spec(text@.skip(i + 1), sep)) =~= found.push(
                    part@,
                ) + split_spec(text@.skip(i + 1), sep));
                found = found.push(part@);
            }
            parts.push(part);
            start = i + 1;
        }
        i += 1;
    }
    let last = text.substring_char(start, n);
    proof {
        let rest = text@.skip(start as int);
        assert forall|k: int| 0 <= k < rest.len() implies rest[k] != sep by {
            assert(rest[k] == text@[start + k]);
        }
        lemma_first_index_is(rest, sep, rest.len() as int);
        assert(rest =~= text@.subrange(start as int, n as int));
        found = found.push(last@);
        assert(split_spec(text@, sep) =~= found);
    }
    parts.push(last);
    parts
}

/// Removes the white space at the beginning and at the end of `text`.
pub fn trim<'a>(text: &'a str) -> (inner: &'a str)
    ensures
        inner@ == trimmed(text@),
{
    let n = text.unicode_len();
    let mut from: usize = 0;
    while from < n && is_whitespace(text.get_char(from))
        invariant
            from <= n,
            n == text@.len(),
            forall|k: int| 0 <= k < from ==> whitespace(text@[k]),
        decreases n - from,
    {
        from += 1;
    }
    proof {
        lemma_leading_space_bounds(text@);
        if from < leading_space(text@) {
            assert(whitespace(text@[from as int]));
        }
        if leading_space(text@) < from {
            assert(whitespace(text@[leading_space(text@)]));
        }
        assert(from == leading_space(text@));
    }
    if from >= n {
        let empty = text.substring_char(0, 0);
        assert(empty@ =~= Seq::<char>::empty());
        return empty;
    }
    let mut to: usize = n;
    while to > from && is_whitespace(text.get_char(to - 1))
        invariant
            from < n,
            from <= to <= n,
            n == text@.len(),
            !whitespace(text@[from as int]),
            forall|k: int| to <= k < n ==> whitespace(text@[k]),
        decreases to,
    {
        to -= 1;
    }
    proof {
        lemma_trailing_space_bounds(text@);
        let t = n - trailing_space(text@);
        if to < t {
            assert(whitespace(text@[t - 1]));
        }
        if t < to {
            assert(whitespace(text@[to - 1]));
        }
        assert(to == t);
    }
    text.substring_char(from, to)
}

/// The token that a piece of an action string stands for: the piece without
/// the white space round it where it takes more than one byte, in lower case.
pub open spec fn folded(piece: Seq<char>) -> Seq<char> {
    if over_one_byte(piece) {
        lowercase_of(trimmed(piece))
    } else {
        lowercase_of(piece)
    }
}

/// Folds one piece of an action string into its token.
pub fn fold(piece: &str) -> (token: String)
    ensures
        token@ == folded(piece@),
{
    if is_over_one_byte(piece) {
        lowercase(trim(piece))
    } else {
        lowercase(piece)
    }
}

fn hex_digit(d: u8) -> (digit: &'static str)
    requires
        d < 16,
    ensures
        digit@ == seq![hex_digit_spec(d)],
{
    proof {
        reveal_strlit("0");
        reveal_strlit("1");
        reveal_strlit("2");
        reveal_strlit("3");
        reveal_strlit("4");
        reveal_strlit("5");
        reveal_strlit("6");
        reveal_strlit("7");
        reveal_strlit("8");
        reveal_strlit("9");
        reveal_strlit("a");
        reveal_strlit("b");
        reveal_strlit("c");
        reveal_strlit("d");
        reveal_strlit("e");
        reveal_strlit("f");
    }
    let digit = match d {
        0 => "0",
        1 => "1",
        2 => "2",
        3 => "3",
        4 => "4",
        5 => "5",
        6 => "6",
        7 => "7",
        8 => "8",
        9 => "9",
        10 => "a",
        11 => "b",
        12 => "c",
        13 => "d",
        14 => "e",
        _ => "f",
    };
    assert(digit@ =~= seq![hex_digit_spec(d)]);
    digit
}

/// Writes `v` as four small hexadecimal digits.
pub fn hex4(v: u16) -> (text: String)
    ensures
        text@ == hex4_spec(v),
{
    let mut text = String::new();
    text.append(hex_digit((v / 4096) as u8));
    text.append(hex_digit(((v / 256) % 16) as u8));
    text.append(hex_digit(((v / 16) % 16) as u8));
    text.append(hex_digit((v % 16) as u8));
    assert(text@ =~= hex4_spec(v));
    text
}

} // verus!
