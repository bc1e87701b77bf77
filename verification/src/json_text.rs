//! The JSON texts that attribute values are stored as, and the calls into
//! `serde_json` that write and read them.

use vstd::prelude::*;
use vstd::utf8::{encode_utf8, encode_utf8_decode_utf8};

verus! {

/// Whether two strings hold the same characters.
pub fn same_text(a: &str, b: &str) -> (same: bool)
    ensures
        same == (a@ == b@),
{
    let x = a.as_bytes();
    let y = b.as_bytes();
    proof {
        encode_utf8_decode_utf8(a@);
        encode_utf8_decode_utf8(b@);
    }
    if x.len() != y.len() {
        return false;
    }
    let mut i: usize = 0;
    while i < x.len()
        invariant
            i <= x.len(),
            x.len() == y.len(),
            x@ == encode_utf8(a@),
            y@ == encode_utf8(b@),
            forall|j: int| 0 <= j < i ==> x@[j] == y@[j],
        decreases x.len() - i,
    {
        if x[i] != y[i] {
            return false;
        }
        i += 1;
    }
    assert(x@ =~= y@);
    true
}

/// The character that stands for the digit `d`, for `d` from 0 to 9.
pub open spec fn digit_char(d: int) -> char {
    if d == 0 {
        '0'
    } else if d == 1 {
        '1'
    } else if d == 2 {
        '2'
    } else if d == 3 {
        '3'
    } else if d == 4 {
        '4'
    } else if d == 5 {
        '5'
    } else if d == 6 {
        '6'
    } else if d == 7 {
        '7'
    } else if d == 8 {
        '8'
    } else {
        '9'
    }
}

/// The digits of `n` in base ten, most significant first, without leading
/// zeros; zero is the single digit `0`.
pub open spec fn decimal_digits(n: nat) -> Seq<char>
    decreases n,
{
    if n < 10 {
        seq![digit_char(n as int)]
    } else {
        decimal_digits(n / 10).push(digit_char((n % 10) as int))
    }
}

/// The decimal text of an integer: its digits, after a minus sign if it is
/// negative.
pub open spec fn decimal_text(n: int) -> Seq<char> {
    if n < 0 {
        seq!['-'] + decimal_digits((-n) as nat)
    } else {
        decimal_digits(n as nat)
    }
}

/// The four characters that JSON allows around a value.
pub open spec fn is_json_space(c: char) -> bool {
    c == ' ' || c == '\n' || c == '\t' || c == '\r'
}

/// `text` without the JSON whitespace at its start.
pub open spec fn trim_start(text: Seq<char>) -> Seq<char>
    decreases text.len(),
{
    if text.len() > 0 && is_json_space(text[0]) {
        trim_start(text.drop_first())
    } else {
        text
    }
}

/// `text` without the JSON whitespace at its end.
pub open spec fn trim_end(text: Seq<char>) -> Seq<char>
    decreases text.len(),
{
    if text.len() > 0 && is_json_space(text.last()) {
        trim_end(text.drop_last())
    } else {
        text
    }
}

/// `text` without the JSON whitespace on either side.
pub open spec fn trimmed(text: Seq<char>) -> Seq<char> {
    trim_end(trim_start(text))
}

/// The 64-bit integer that a JSON text stands for: the text is, apart from
/// whitespace around it, the decimal text of that integer. Leading zeros, a
/// plus sign, `-0`, a fraction or an exponent make the text stand for none.
pub open spec fn json_integer(text: Seq<char>) -> Option<i64> {
    if exists|n: i64| #[trigger] decimal_text(n as int) == trimmed(text) {
        Some(choose|n: i64| #[trigger] decimal_text(n as int) == trimmed(text))
    } else {
        None
    }
}

/// The digit that a character stands for; 9 for `'9'` and for every
/// character that is no digit.
pub open spec fn digit_value(c: char) -> int {
    if c == '0' {
        0
    } else if c == '1' {
        1
    } else if c == '2' {
        2
    } else if c == '3' {
        3
    } else if c == '4' {
        4
    } else if c == '5' {
        5
    } else if c == '6' {
        6
    } else if c == '7' {
        7
    } else if c == '8' {
        8
    } else {
        9
    }
}

/// The number that a run of digits stands for, read in base ten.
pub open spec fn digits_value(digits: Seq<char>) -> int
    decreases digits.len(),
{
    if digits.len() == 0 {
        0
    } else {
        digits_value(digits.drop_last()) * 10 + digit_value(digits.last())
    }
}

/// Whether a character is one of the ten digits.
pub open spec fn is_digit(c: char) -> bool {
    c == '0' || c == '1' || c == '2' || c == '3' || c == '4' || c == '5' || c == '6' || c == '7'
        || c == '8' || c == '9'
}

/// The digits of a number are digits, there is at least one of them, and
/// read back they give the number.
pub proof fn lemma_decimal_digits(n: nat)
    ensures
        decimal_digits(n).len() >= 1,
        forall|i: int|
            0 <= i < decimal_digits(n).len() ==> is_digit(#[trigger] decimal_digits(n)[i]),
        digits_value(decimal_digits(n)) == n,
    decreases n,
{
    if n < 10 {
        let only = decimal_digits(n);
        assert(only.drop_last() =~= Seq::<char>::empty());
        assert(digits_value(only.drop_last()) == 0);
        assert(digit_value(only.last()) == n);
        assert(digits_value(only) == digits_value(only.drop_last()) * 10 + digit_value(
            only.last(),
        ));
    } else {
        lemma_decimal_digits(n / 10);
        let more = decimal_digits(n / 10);
        let last = digit_char((n % 10) as int);
        let all = decimal_digits(n);
        assert(all == more.push(last));
        assert(all.drop_last() =~= more);
        assert(all.last() == last);
        assert(digit_value(last) == n % 10);
        assert(digits_value(all) == digits_value(all.drop_last()) * 10 + digit_value(
            all.last(),
        ));
    }
}

/// Two integers with the same decimal text are the same integer.
pub proof fn lemma_decimal_text_injective(a: int, b: int)
    requires
        decimal_text(a) == decimal_text(b),
    ensures
        a == b,
{
    let x = if a < 0 { (-a) as nat } else { a as nat };
    let y = if b < 0 { (-b) as nat } else { b as nat };
    lemma_decimal_digits(x);
    lemma_decimal_digits(y);
    let dx = decimal_digits(x);
    let dy = decimal_digits(y);
    assert(is_digit(dx[0]));
    assert(is_digit(dy[0]));
    if a < 0 {
        assert(decimal_text(a)[0] == '-');
        assert(b < 0);
        assert(dx =~= decimal_text(a).drop_first());
        assert(dy =~= decimal_text(b).drop_first());
    } else {
        assert(decimal_text(a)[0] == dx[0]);
        assert(b >= 0);
    }
}

/// JSON whitespace is stripped from a text only where the text starts or
/// ends with it.
pub proof fn lemma_trimmed_is_whole(text: Seq<char>)
    requires
        text.len() > 0,
        !is_json_space(text[0]),
        !is_json_space(text.last()),
    ensures
        trimmed(text) == text,
{
}

/// A text that is the decimal text of `n` between JSON whitespace stands for
/// `n` and for no other integer.
pub proof fn lemma_json_integer_is(text: Seq<char>, n: i64)
    requires
        trimmed(text) == decimal_text(n as int),
    ensures
        json_integer(text) == Some(n),
{
    let m = choose|m: i64| #[trigger] decimal_text(m as int) == trimmed(text);
    lemma_decimal_text_injective(m as int, n as int);
}

/// A text that stands for an integer is, between its whitespace, an
/// optional minus sign and then digits only, at least one.
pub proof fn lemma_json_integer_shape(text: Seq<char>)
    requires
        json_integer(text) is Some,
    ensures
        trimmed(text).len() >= 1,
        is_digit(trimmed(text)[0]) || (trimmed(text)[0] == '-' && trimmed(text).len() >= 2),
        forall|i: int| 1 <= i < trimmed(text).len() ==> is_digit(#[trigger] trimmed(text)[i]),
{
    let n = choose|n: i64| #[trigger] decimal_text(n as int) == trimmed(text);
    let digits = decimal_digits(if n < 0 { (-n) as nat } else { n as nat });
    lemma_decimal_digits(if n < 0 { (-n) as nat } else { n as nat });
    assert(is_digit(digits[0]));
    if n < 0 {
        assert forall|i: int| 1 <= i < trimmed(text).len() implies is_digit(
            #[trigger] trimmed(text)[i],
        ) by {
            assert(trimmed(text)[i] == digits[i - 1]);
        }
    }
}

/// The decimal text of a 64-bit integer stands for that integer.
pub proof fn lemma_json_integer_of_decimal_text(n: i64)
    ensures
        json_integer(decimal_text(n as int)) == Some(n),
{
    let text = decimal_text(n as int);
    let digits = decimal_digits(if n < 0 { (-n) as nat } else { n as nat });
    lemma_decimal_digits(if n < 0 { (-n) as nat } else { n as nat });
    assert(is_digit(digits[0]));
    assert(is_digit(digits[digits.len() - 1]));
    assert(text.last() == digits.last());
    lemma_trimmed_is_whole(text);
    lemma_json_integer_is(text, n);
}

/// The lower-case character that stands for the hexadecimal digit `d`, for
/// `d` from 0 to 15.
pub open spec fn hex_char(d: int) -> char {
    if d < 10 {
        digit_char(d)
    } else if d == 10 {
        'a'
    } else if d == 11 {
        'b'
    } else if d == 12 {
        'c'
    } else if d == 13 {
        'd'
    } else if d == 14 {
        'e'
    } else {
        'f'
    }
}

/// Whether a character cannot stand for itself inside a JSON string: the
/// quote, the backslash and the control characters below the space.
pub open spec fn needs_escape(c: char) -> bool {
    c == '"' || c == '\\' || (c as u32) < 0x20
}

/// How one character is written inside a JSON string. The quote and the
/// backslash get a backslash in front; backspace, tab, line feed, form feed
/// and carriage return get their letter; any other control character is
/// written as `\u00` and two hexadecimal digits; every other character
/// stands for itself.
pub open spec fn escaped_char(c: char) -> Seq<char> {
    if c == '"' {
        seq!['\\', '"']
    } else if c == '\\' {
        seq!['\\', '\\']
    } else if c == '\u{08}' {
        seq!['\\', 'b']
    } else if c == '\t' {
        seq!['\\', 't']
    } else if c == '\n' {
        seq!['\\', 'n']
    } else if c == '\u{0c}' {
        seq!['\\', 'f']
    } else if c == '\r' {
        seq!['\\', 'r']
    } else if (c as u32) < 0x20 {
        seq![
            '\\',
            'u',
            '0',
            '0',
            hex_char((c as u32) as int / 16),
            hex_char((c as u32) as int % 16),
        ]
    } else {
        seq![c]
    }
}

/// The characters of a string as they are written inside a JSON string.
pub open spec fn escaped(s: Seq<char>) -> Seq<char>
    decreases s.len(),
{
    if s.len() == 0 {
        Seq::empty()
    } else {
        escaped_char(s[0]) + escaped(s.drop_first())
    }
}

/// The JSON text of a string: its escaped characters between two quotes.
pub open spec fn json_quoted(s: Seq<char>) -> Seq<char> {
    seq!['"'] + escaped(s) + seq!['"']
}

/// A character is known by the way it is written inside a JSON string, and
/// so is where its writing ends.
pub proof fn lemma_escaped_char_injective(a: char, x: Seq<char>, b: char, y: Seq<char>)
    requires
        escaped_char(a) + x == escaped_char(b) + y,
    ensures
        a == b,
        x == y,
{
    let ea = escaped_char(a);
    let eb = escaped_char(b);
    let text = ea + x;
    assert(text[0] == ea[0]);
    assert(text[0] == eb[0]);
    if ea[0] == '\\' {
        assert(needs_escape(a));
        assert(needs_escape(b));
        assert(text[1] == ea[1]);
        assert(text[1] == eb[1]);
        if ea[1] == 'u' {
            assert(ea.len() == 6 && eb.len() == 6);
            assert(text[4] == ea[4] && text[4] == eb[4]);
            assert(text[5] == ea[5] && text[5] == eb[5]);
            let m = (a as u32) as int;
            let n = (b as u32) as int;
            assert(m / 16 == n / 16);
            assert(m % 16 == n % 16);
            assert(m == n);
            assert(a as u32 == b as u32);
        }
    }
    assert(a == b);
    assert(x =~= text.subrange(ea.len() as int, text.len() as int));
    assert(y =~= text.subrange(eb.len() as int, text.len() as int));
}

/// Two strings that are written alike inside a JSON string are the same
/// string.
pub proof fn lemma_escaped_injective(a: Seq<char>, b: Seq<char>)
    requires
        escaped(a) == escaped(b),
    ensures
        a == b,
    decreases a.len(),
{
    if a.len() == 0 {
        if b.len() > 0 {
            assert(escaped(b).len() >= escaped_char(b[0]).len());
        }
        assert(a =~= b);
    } else if b.len() == 0 {
        assert(escaped(a).len() >= escaped_char(a[0]).len());
    } else {
        lemma_escaped_char_injective(a[0], escaped(a.drop_first()), b[0], escaped(b.drop_first()));
        lemma_escaped_injective(a.drop_first(), b.drop_first());
        assert(a =~= seq![a[0]] + a.drop_first());
        assert(b =~= seq![b[0]] + b.drop_first());
    }
}

/// Two strings with the same JSON text are the same string.
pub proof fn lemma_json_quoted_injective(a: Seq<char>, b: Seq<char>)
    requires
        json_quoted(a) == json_quoted(b),
    ensures
        a == b,
{
    let text = json_quoted(a);
    assert(escaped(a) =~= text.subrange(1, text.len() - 1));
    assert(escaped(b) =~= text.subrange(1, text.len() - 1));
    lemma_escaped_injective(a, b);
}

/// What `serde_json` reads from a text as a string: the string, or nothing
/// where it refuses the text. It takes a string between quotes, with JSON
/// whitespace around it and with every escape of JSON inside it.
pub uninterp spec fn parsed_json_string(text: Seq<char>) -> Option<Seq<char>>;

/// Whether `serde_json` reads a text as a number: an integer, or a number
/// with a fraction or an exponent, that a 64-bit float can hold, with JSON
/// whitespace around it.
pub uninterp spec fn is_json_number(text: Seq<char>) -> bool;

/// The string that a JSON text stands for. A text that is the JSON text of
/// a string stands for that string; of every other text `serde_json` decides.
pub open spec fn json_string(text: Seq<char>) -> Option<Seq<char>> {
    if exists|s: Seq<char>| #[trigger] json_quoted(s) == text {
        Some(choose|s: Seq<char>| #[trigger] json_quoted(s) == text)
    } else {
        parsed_json_string(text)
    }
}

/// The JSON text of a string stands for that string.
pub proof fn lemma_json_string_of_quoted(s: Seq<char>)
    ensures
        json_string(json_quoted(s)) == Some(s),
{
    let t = choose|t: Seq<char>| #[trigger] json_quoted(t) == json_quoted(s);
    lemma_json_quoted_injective(t, s);
}

/// The error with which `serde_json` refuses a text.
#[verifier::external_type_specification]
#[verifier::external_body]
pub struct ExJsonError(serde_json::Error);

/// `serde_json::to_string` of a 64-bit integer: its decimal text.
#[verifier::external_body]
pub(crate) fn integer_to_json(value: i64) -> (text: String)
    ensures
        text@ == decimal_text(value as int),
{
    serde_json::to_string(&value).expect("an integer is always written")
}

/// `serde_json::from_str` for a 64-bit integer. It gives `n` where the text
/// is the decimal text of `n` with JSON whitespace around it, and an error
/// for every other text.
#[verifier::external_body]
pub(crate) fn integer_from_json(text: &str) -> (r: Result<i64, serde_json::Error>)
    ensures
        r matches Ok(n) ==> trimmed(text@) == decimal_text(n as int),
        r is Err ==> forall|n: i64| trimmed(text@) != #[trigger] decimal_text(n as int),
{
    serde_json::from_str::<i64>(text)
}

/// `serde_json::to_string` of a string: its JSON text.
#[verifier::external_body]
pub(crate) fn string_to_json(value: &str) -> (text: String)
    ensures
        text@ == json_quoted(value@),
{
    serde_json::to_string(value).expect("a string is always written")
}

/// `serde_json::from_str` for a string. What it gives is
/// `parsed_json_string` of the text; for the JSON text of a string that is
/// the string.
#[verifier::external_body]
pub(crate) fn string_from_json(text: &str) -> (r: Result<String, serde_json::Error>)
    ensures
        r matches Ok(v) ==> parsed_json_string(text@) == Some(v@),
        r is Err ==> parsed_json_string(text@) is None,
        r matches Ok(v) ==> forall|s: Seq<char>| #[trigger] json_quoted(s) == text@ ==> v@ == s,
        r is Err ==> forall|s: Seq<char>| #[trigger] json_quoted(s) != text@,
{
    serde_json::from_str::<String>(text)
}

/// `serde_json::from_str` for `serde_json::Number`: whether it takes the
/// text as a number.
#[verifier::external_body]
pub(crate) fn number_from_json(text: &str) -> (accepted: bool)
    ensures
        accepted == is_json_number(text@),
{
    serde_json::from_str::<serde_json::Number>(text).is_ok()
}

} // verus!
