//! Text as sequences of characters: the vocabulary of every contract that
//! speaks of SQL, and the verified string operations that go with it.

use vstd::prelude::*;
use vstd::string::*;
use vstd::utf8::valid_utf8;

verus! {

/// Whether `pattern` stands in `text` at position `at`.
pub open spec fn occurs_at(text: Seq<char>, pattern: Seq<char>, at: int) -> bool {
    &&& 0 <= at
    &&& at + pattern.len() <= text.len()
    &&& text.subrange(at, at + pattern.len()) == pattern
}

/// Whether `pattern` stands anywhere in `text`.
pub open spec fn contains_text(text: Seq<char>, pattern: Seq<char>) -> bool {
    exists|at: int| occurs_at(text, pattern, at)
}

/// `A` to `Z` for `a` to `z`; every other character stays.
pub open spec fn ascii_upper_char(c: char) -> char {
    if 'a' <= c <= 'z' {
        (c as u32 - 32) as char
    } else {
        c
    }
}

/// `text` with its ASCII letters in upper case.
pub open spec fn ascii_upper(text: Seq<char>) -> Seq<char> {
    text.map_values(|c: char| ascii_upper_char(c))
}

/// The characters with the Unicode property `White_Space`.
pub open spec fn is_white_space(c: char) -> bool {
    ||| '\u{0009}' <= c <= '\u{000D}'
    ||| c == '\u{0020}'
    ||| c == '\u{0085}'
    ||| c == '\u{00A0}'
    ||| c == '\u{1680}'
    ||| '\u{2000}' <= c <= '\u{200A}'
    ||| c == '\u{2028}'
    ||| c == '\u{2029}'
    ||| c == '\u{202F}'
    ||| c == '\u{205F}'
    ||| c == '\u{3000}'
}

/// Whether `text` holds nothing but white space.
pub open spec fn is_blank(text: Seq<char>) -> bool {
    forall|i: int| 0 <= i < text.len() ==> is_white_space(#[trigger] text[i])
}

/// The decimal digit for `d`.
pub open spec fn digit(d: int) -> char {
    (48 + d) as char
}

/// `n` in decimal, without leading zeros.
pub open spec fn decimal(n: nat) -> Seq<char>
    decreases n,
{
    if n < 10 {
        seq![digit(n as int)]
    } else {
        decimal(n / 10).push(digit((n % 10) as int))
    }
}

/// `i` in decimal, with a minus sign where it is negative.
pub open spec fn signed_decimal(i: int) -> Seq<char> {
    if i < 0 {
        seq!['-'] + decimal((-i) as nat)
    } else {
        decimal(i as nat)
    }
}

/// `parts` one after the other, `separator` between each two.
pub open spec fn joined(parts: Seq<Seq<char>>, separator: Seq<char>) -> Seq<char>
    decreases parts.len(),
{
    if parts.len() == 0 {
        Seq::empty()
    } else if parts.len() == 1 {
        parts[0]
    } else {
        joined(parts.drop_last(), separator) + separator + parts.last()
    }
}

/// The views of `texts`.
pub open spec fn views(texts: Seq<String>) -> Seq<Seq<char>> {
    texts.map_values(|t: String| t@)
}

/// `core::str::Utf8Error`, opaque here.
#[verifier::external_type_specification]
#[verifier::external_body]
pub struct ExUtf8Error(core::str::Utf8Error);

/// The error of `core::str::from_utf8` for bytes that are not UTF-8.
pub uninterp spec fn utf8_error(bytes: Seq<u8>) -> core::str::Utf8Error;

/// The text of an error of `core::str::from_utf8`.
pub uninterp spec fn utf8_error_text(error: core::str::Utf8Error) -> Seq<char>;

/// `core::str::from_utf8`: the text whose UTF-8 encoding the bytes are, where they
/// are UTF-8, and an error where they are not. The error depends on the bytes alone, and is
/// named [`utf8_error`].
#[verifier::external_body]
pub(crate) fn text_from_utf8(bytes: &Vec<u8>) -> (text: Result<&str, core::str::Utf8Error>)
    ensures
        text is Ok <==> valid_utf8(bytes@),
        text matches Ok(t) ==> t.spec_bytes() == bytes@,
        text matches Err(e) ==> e == utf8_error(bytes@),
{
    core::str::from_utf8(bytes)
}

/// `to_string` through the `Display` of `core::str::Utf8Error`: the text depends on the error
/// alone, and is named [`utf8_error_text`].
#[verifier::external_body]
pub(crate) fn utf8_error_to_text(error: &core::str::Utf8Error) -> (text: String)
    ensures
        text@ == utf8_error_text(*error),
{
    error.to_string()
}

/// The characters of `text`.
pub fn chars_of(text: &str) -> (chars: Vec<char>)
    ensures
        chars@ == text@,
{
    let mut chars: Vec<char> = Vec::new();
    for c in it: text.chars()
        invariant
            chars@ == text@.take(it.index()),
            it.seq() == text@,
    {
        chars.push(c);
    }
    chars
}

/// Whether two texts are equal.
pub fn same_text(a: &str, b: &str) -> (same: bool)
    ensures
        same == (a@ == b@),
{
    let left = chars_of(a);
    let right = chars_of(b);
    if left.len() != right.len() {
        return false;
    }
    let mut i: usize = 0;
    while i < left.len()
        invariant
            i <= left.len(),
            left.len() == right.len(),
            forall|j: int| 0 <= j < i ==> left@[j] == right@[j],
            left@ == a@,
            right@ == b@,
        decreases left.len() - i,
    {
        if left[i] != right[i] {
            return false;
        }
        i += 1;
    }
    assert(a@ == b@);
    true
}

/// Whether the character `c` stands in `text`.
pub fn has_char(text: &str, c: char) -> (found: bool)
    ensures
        found == text@.contains(c),
{
    let chars = chars_of(text);
    let mut i: usize = 0;
    while i < chars.len()
        invariant
            i <= chars.len(),
            chars@ == text@,
            forall|j: int| 0 <= j < i ==> chars@[j] != c,
        decreases chars.len() - i,
    {
        if chars[i] == c {
            return true;
        }
        i += 1;
    }
    false
}

/// The text with its ASCII letters in upper case, as characters.
pub fn upper_chars(text: &str) -> (upper: Vec<char>)
    ensures
        upper@ == ascii_upper(text@),
{
    let chars = chars_of(text);
    let mut upper: Vec<char> = Vec::new();
    let mut i: usize = 0;
    while i < chars.len()
        invariant
            i <= chars.len(),
            chars@ == text@,
            upper@ == ascii_upper(text@).take(i as int),
        decreases chars.len() - i,
    {
        upper.push(to_upper(chars[i]));
        proof {
            assert(ascii_upper(text@).take(i + 1) =~= ascii_upper(text@).take(i as int).push(
                ascii_upper(text@)[i as int],
            ));
        }
        i += 1;
    }
    assert(ascii_upper(text@).take(i as int) =~= ascii_upper(text@));
    upper
}

/// The character in ASCII upper case.
fn to_upper(c: char) -> (upper: char)
    ensures
        upper == ascii_upper_char(c),
{
    if 'a' <= c && c <= 'z' {
        ((c as u8) - 32) as char
    } else {
        c
    }
}

/// Whether `pattern` stands in `chars` at position `at`.
fn stands_at(chars: &Vec<char>, pattern: &Vec<char>, at: usize) -> (found: bool)
    requires
        at + pattern.len() <= chars.len(),
    ensures
        found == occurs_at(chars@, pattern@, at as int),
{
    let mut i: usize = 0;
    while i < pattern.len()
        invariant
            i <= pattern.len(),
            at + pattern.len() <= chars.len(),
            forall|j: int| 0 <= j < i ==> chars@[at + j] == pattern@[j],
        decreases pattern.len() - i,
    {
        if chars[at + i] != pattern[i] {
            assert(chars@.subrange(at as int, at + pattern.len())[i as int] != pattern@[i as int]);
            return false;
        }
        i += 1;
    }
    assert(chars@.subrange(at as int, at + pattern.len()) =~= pattern@);
    true
}

/// Whether `pattern` stands anywhere in `chars`.
pub fn has_text(chars: &Vec<char>, pattern: &str) -> (found: bool)
    ensures
        found == contains_text(chars@, pattern@),
{
    let pattern_chars = chars_of(pattern);
    if pattern_chars.len() > chars.len() {
        return false;
    }
    let last: usize = chars.len() - pattern_chars.len();
    let mut at: usize = 0;
    loop
        invariant
            pattern_chars@ == pattern@,
            last == chars.len() - pattern_chars.len(),
            at <= last,
            forall|k: int| 0 <= k < at ==> !occurs_at(chars@, pattern@, k),
        decreases last - at,
    {
        if stands_at(chars, &pattern_chars, at) {
            return true;
        }
        if at == last {
            assert forall|k: int| !occurs_at(chars@, pattern@, k) by {
                if k > last {
                    assert(k + pattern@.len() > chars@.len());
                }
            }
            return false;
        }
        at += 1;
    }
}

/// Whether `c` is white space.
pub fn white_space(c: char) -> (white: bool)
    ensures
        white == is_white_space(c),
{
    ('\u{0009}' <= c && c <= '\u{000D}') || c == '\u{0020}' || c == '\u{0085}' || c == '\u{00A0}'
        || c == '\u{1680}' || ('\u{2000}' <= c && c <= '\u{200A}') || c == '\u{2028}'
        || c == '\u{2029}' || c == '\u{202F}' || c == '\u{205F}' || c == '\u{3000}'
}

/// Whether `chars` holds nothing but white space.
pub fn blank(chars: &Vec<char>) -> (all: bool)
    ensures
        all == is_blank(chars@),
{
    let mut i: usize = 0;
    while i < chars.len()
        invariant
            i <= chars.len(),
            forall|j: int| 0 <= j < i ==> is_white_space(#[trigger] chars@[j]),
        decreases chars.len() - i,
    {
        if !white_space(chars[i]) {
            assert(!is_white_space(chars@[i as int]));
            return false;
        }
        i += 1;
    }
    true
}

/// The text of one decimal digit.
fn digit_text(d: u64) -> (text: &'static str)
    requires
        d < 10,
    ensures
        text@ == seq![digit(d as int)],
{
    proof {
        reveal_strlit("0");
        reveal_strlit("1");
        reveal_strlit("2");
        reveal_strlit("3");
        reveal_strlit("4");
        reveal_strlit("5");
        reveal_strlit("6");
        reveal_strlit("7");
        reveal_strlit("8");
        reveal_strlit("9");
    }
    match d {
        0 => "0",
        1 => "1",
        2 => "2",
        3 => "3",
        4 => "4",
        5 => "5",
        6 => "6",
        7 => "7",
        8 => "8",
        _ => "9",
    }
}

/// `n` in decimal.
pub fn decimal_text(n: u64) -> (text: String)
    ensures
        text@ == decimal(n as nat),
    decreases n,
{
    if n < 10 {
        digit_text(n).to_owned()
    } else {
        let mut text = decimal_text(n / 10);
        text.append(digit_text(n % 10));
        assert(text@ =~= decimal(n as nat));
        text
    }
}

/// `i` in decimal.
pub fn signed_decimal_text(i: i64) -> (text: String)
    ensures
        text@ == signed_decimal(i as int),
{
    if i >= 0 {
        decimal_text(i as u64)
    } else {
        proof {
            reveal_strlit("-");
        }
        let magnitude: u64 = (-(i as i128)) as u64;
        let mut text = "-".to_owned();
        text.append(decimal_text(magnitude).as_str());
        assert(text@ =~= signed_decimal(i as int));
        text
    }
}

/// The texts one after the other, `separator` between each two.
pub fn join(texts: &Vec<String>, separator: &str) -> (whole: String)
    ensures
        whole@ == joined(views(texts@), separator@),
{
    let mut whole = String::new();
    let ghost parts = views(texts@);
    let mut i: usize = 0;
    while i < texts.len()
        invariant
            i <= texts.len(),
            parts == views(texts@),
            whole@ == joined(parts.take(i as int), separator@),
        decreases texts.len() - i,
    {
        if i > 0 {
            whole.append(separator);
        }
        whole.append(texts[i].as_str());
        proof {
            assert(parts.take(i + 1).drop_last() =~= parts.take(i as int));
            assert(parts.take(i + 1).last() == texts@[i as int]@);
            if i == 0 {
                assert(whole@ =~= parts[0]);
            }
        }
        i += 1;
    }
    assert(parts.take(i as int) =~= parts);
    whole
}

/// The number that decimal digits stand for.
pub open spec fn digits_value(digits: Seq<char>) -> int
    decreases digits.len(),
{
    if digits.len() == 0 {
        0
    } else {
        10 * digits_value(digits.drop_last()) + (digits.last() as int - '0' as int)
    }
}

/// Whether the text is made of decimal digits, at least one, and starts with no zero that could
/// be left out.
pub open spec fn is_decimal(text: Seq<char>) -> bool {
    &&& text.len() > 0
    &&& forall|i: int| 0 <= i < text.len() ==> '0' <= #[trigger] text[i] <= '9'
    &&& text.len() > 1 ==> text[0] != '0'
}

proof fn lemma_decimal(n: nat)
    ensures
        is_decimal(decimal(n)),
        digits_value(decimal(n)) == n,
        n > 0 ==> decimal(n)[0] != '0',
    decreases n,
{
    reveal_with_fuel(digits_value, 2);
    if n >= 10 {
        lemma_decimal(n / 10);
        let text = decimal(n);
        assert(text.drop_last() =~= decimal(n / 10));
        assert(text[0] == decimal(n / 10)[0]);
        assert forall|i: int| 0 <= i < text.len() implies '0' <= #[trigger] text[i] <= '9' by {
            if i < text.len() - 1 {
                assert(text[i] == decimal(n / 10)[i]);
            }
        }
    } else {
        assert(decimal(n).drop_last() =~= Seq::empty());
    }
}

/// A number in decimal is made of digits that stand for it, without leading zeros.
pub proof fn law_decimals_denote_their_number(n: u64, text: String)
    requires
        call_ensures(decimal_text, (n,), text),
    ensures
        is_decimal(text@),
        digits_value(text@) == n,
{
    lemma_decimal(n as nat);
}

/// Whether the text is the integer in decimal, with a minus sign where it is negative.
pub open spec fn denotes(text: Seq<char>, i: int) -> bool {
    if i < 0 {
        text.len() > 0 && text[0] == '-' && is_decimal(text.drop_first()) && digits_value(
            text.drop_first(),
        ) == -i
    } else {
        is_decimal(text) && digits_value(text) == i
    }
}

/// An integer in decimal denotes the integer.
pub proof fn law_signed_decimals_denote_their_integer(i: int)
    ensures
        denotes(signed_decimal(i), i),
{
    if i < 0 {
        lemma_decimal((-i) as nat);
        assert(signed_decimal(i).drop_first() =~= decimal((-i) as nat));
    } else {
        lemma_decimal(i as nat);
    }
}

/// The pieces one after the other, with the name between each two.
pub open spec fn woven(pieces: Seq<Seq<char>>, name: Seq<char>) -> Seq<char>
    decreases pieces.len(),
{
    if pieces.len() == 0 {
        Seq::empty()
    } else if pieces.len() == 1 {
        pieces[0]
    } else {
        woven(pieces.drop_last(), name) + name + pieces.last()
    }
}

/// The parts of a text one after the other: one part more comes at the end, behind a separator.
pub proof fn law_joining_keeps_every_part(
    parts: Vec<String>,
    more: Vec<String>,
    part: String,
    separator: &str,
    whole: String,
    longer: String,
)
    requires
        more@ == parts@.push(part),
        call_ensures(join, (&parts, separator), whole),
        call_ensures(join, (&more, separator), longer),
    ensures
        parts@.len() == 0 ==> longer@ == part@,
        parts@.len() > 0 ==> longer@ == whole@ + separator@ + part@,
{
    assert(views(more@).drop_last() =~= views(parts@));
    assert(views(more@).last() == part@);
}

/// White space is what Unicode calls so, by code point.
pub proof fn law_white_space_goes_by_code_point(c: char, white: bool)
    requires
        call_ensures(white_space, (c,), white),
    ensures
        white <==> {
            let code = c as int;
            ||| 0x9 <= code <= 0xd
            ||| code == 0x20 || code == 0x85 || code == 0xa0 || code == 0x1680
            ||| 0x2000 <= code <= 0x200a
            ||| code == 0x2028 || code == 0x2029 || code == 0x202f || code == 0x205f
            ||| code == 0x3000
        },
{
}

/// How texts are grouped makes no difference.
pub broadcast proof fn lemma_flat(a: Seq<char>, b: Seq<char>, c: Seq<char>)
    ensures
        #[trigger] (a + (b + c)) == a + b + c,
{
    assert(a + (b + c) =~= a + b + c);
}

/// Nothing before a text leaves it as it is.
pub broadcast proof fn lemma_nothing_before(a: Seq<char>)
    ensures
        #[trigger] (Seq::<char>::empty() + a) == a,
{
    assert(Seq::<char>::empty() + a =~= a);
}

} // verus!
