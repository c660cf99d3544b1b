//! Helpers on text: comparison, trimming of host buffers, decimal numbers.

use vstd::prelude::*;
use vstd::string::*;
use vstd::utf8::*;

verus! {

/// `String::push` appends one character at the end of the string and leaves
/// the characters before it as they were.
pub assume_specification[ String::push ](text: &mut String, ch: char)
    ensures
        final(text)@ == old(text)@.push(ch),
;

/// `std::str::from_utf8`: succeeds exactly on well-formed UTF-8, and the text
/// it hands back is the decoding of the very bytes it was given.
#[verifier::external_body]
fn utf8_text(bytes: &[u8]) -> (text: Option<&str>)
    ensures
        text is Some <==> valid_utf8(bytes@),
        text matches Some(decoded) ==> decoded@ == decode_utf8(bytes@),
{
    match std::str::from_utf8(bytes) {
        Ok(decoded) => Some(decoded),
        Err(_) => None,
    }
}

/// The text that a sequence of bytes encodes in UTF-8, if it encodes one.
pub open spec fn utf8_decoded(bytes: Seq<u8>) -> Option<Seq<char>> {
    if valid_utf8(bytes) {
        Some(decode_utf8(bytes))
    } else {
        None
    }
}

/// Decodes bytes as UTF-8 text, all of them and as they are.
pub fn decode_text(bytes: &[u8]) -> (text: Option<String>)
    ensures
        text is Some <==> utf8_decoded(bytes@) is Some,
        text matches Some(decoded) ==> Some(decoded@) == utf8_decoded(bytes@),
{
    match utf8_text(bytes) {
        Some(decoded) => Some(decoded.to_owned()),
        None => None,
    }
}

/// `true` exactly when the two texts hold the same characters.
pub fn same_text(left: &str, right: &str) -> (same: bool)
    ensures
        same == (left@ == right@),
{
    let a: String = left.to_owned();
    let b: String = right.to_owned();
    a == b
}

/// `true` exactly when `text` begins with the characters of `prefix`.
pub fn begins_with(text: &str, prefix: &str) -> (found: bool)
    ensures
        found == prefix@.is_prefix_of(text@),
{
    let wanted: usize = prefix.unicode_len();
    let given: usize = text.unicode_len();
    if given < wanted {
        return false;
    }
    let mut at: usize = 0;
    while at < wanted
        invariant
            wanted == prefix@.len(),
            given == text@.len(),
            wanted <= given,
            at <= wanted,
            forall|k: int| 0 <= k < at ==> text@[k] == prefix@[k],
        decreases wanted - at,
    {
        if text.get_char(at) != prefix.get_char(at) {
            return false;
        }
        at = at + 1;
    }
    assert(prefix@ =~= text@.subrange(0, prefix@.len() as int));
    true
}

/// The characters of `text` that are not the padding character NUL, in order.
pub open spec fn unpadded(text: Seq<char>) -> Seq<char> {
    text.filter(|ch: char| ch != '\0')
}

/// Removes every NUL character from `text`.
pub fn strip_padding(text: &str) -> (clean: String)
    ensures
        clean@ == unpadded(text@),
{
    let total: usize = text.unicode_len();
    let mut clean: String = String::new();
    let mut at: usize = 0;
    proof {
        reveal(Seq::filter);
        assert(text@.take(0) =~= Seq::<char>::empty());
    }
    while at < total
        invariant
            total == text@.len(),
            at <= total,
            clean@ == unpadded(text@.take(at as int)),
        decreases total - at,
    {
        let ch: char = text.get_char(at);
        proof {
            let keep = |c: char| c != '\0';
            text@.take(at as int).lemma_filter_push(ch, keep);
            assert(text@.take(at as int).push(ch) =~= text@.take(at as int + 1));
        }
        if ch != '\0' {
            clean.push(ch);
        }
        at = at + 1;
    }
    assert(text@.take(total as int) =~= text@);
    clean
}

/// What a text field of the host holds: the first `limit` bytes of the buffer
/// it was copied into (all of them where the buffer is shorter).
pub open spec fn field_window(buffer: Seq<u8>, limit: nat) -> Seq<u8> {
    if limit <= buffer.len() {
        buffer.take(limit as int)
    } else {
        buffer
    }
}

/// A field is read within bounds: its window is the front of the buffer,
/// never longer than the limit and never longer than the buffer.
pub proof fn law_window_is_bounded(buffer: Seq<u8>, limit: nat)
    ensures
        field_window(buffer, limit).len() <= limit,
        field_window(buffer, limit).len() <= buffer.len(),
        field_window(buffer, limit).is_prefix_of(buffer),
        limit >= buffer.len() ==> field_window(buffer, limit) == buffer,
{
}

/// The text of a host field: its window decoded as UTF-8, padding removed;
/// nothing where the window is not well-formed UTF-8.
pub open spec fn field_text(buffer: Seq<u8>, limit: nat) -> Option<Seq<char>> {
    if valid_utf8(field_window(buffer, limit)) {
        Some(unpadded(decode_utf8(field_window(buffer, limit))))
    } else {
        None
    }
}

/// Reads a text field out of a buffer that the host filled: never looks past
/// the buffer's end, rejects bytes that are not UTF-8, drops the padding.
pub fn read_field(buffer: &[u8], limit: usize) -> (text: Option<String>)
    ensures
        text is Some <==> field_text(buffer@, limit as nat) is Some,
        text matches Some(found) ==> Some(found@) == field_text(buffer@, limit as nat),
{
    let end: usize = if limit <= buffer.len() { limit } else { buffer.len() };
    let window: &[u8] = vstd::slice::slice_subrange(buffer, 0, end);
    assert(window@ =~= field_window(buffer@, limit as nat));
    match utf8_text(window) {
        Some(decoded) => Some(strip_padding(decoded)),
        None => None,
    }
}

/// `true` for the ten decimal digits.
pub open spec fn is_digit(ch: char) -> bool {
    '0' <= ch <= '9'
}

/// The number that a decimal digit stands for.
pub open spec fn digit_value(ch: char) -> nat {
    (ch as nat - '0' as nat) as nat
}

/// The digit that stands for a number below ten.
pub open spec fn digit_char(value: nat) -> char {
    (value + '0' as nat) as char
}

/// The number written by a sequence of decimal digits, most significant first.
pub open spec fn decimal_value(digits: Seq<char>) -> nat
    decreases digits.len(),
{
    if digits.len() == 0 {
        0
    } else {
        10 * decimal_value(digits.drop_last()) + digit_value(digits.last())
    }
}

/// The digits of an unsigned number: an optional leading `+` is not one of them.
pub open spec fn unsigned_digits(text: Seq<char>) -> Seq<char> {
    if text.len() > 0 && text[0] == '+' {
        text.skip(1)
    } else {
        text
    }
}

/// The number that `text` writes in decimal, where it writes one that fits in
/// 64 bits: an optional `+`, then one digit or more and nothing else.
pub open spec fn parsed_u64(text: Seq<char>) -> Option<u64> {
    let digits = unsigned_digits(text);
    if digits.len() > 0 && (forall|k: int| 0 <= k < digits.len() ==> is_digit(#[trigger] digits[k]))
        && decimal_value(digits) <= u64::MAX {
        Some(decimal_value(digits) as u64)
    } else {
        None
    }
}

/// A number only grows as digits are appended to it.
proof fn lemma_decimal_value_grows(digits: Seq<char>, upto: int)
    requires
        0 <= upto <= digits.len(),
    ensures
        decimal_value(digits.take(upto)) <= decimal_value(digits),
    decreases digits.len() - upto,
{
    if upto < digits.len() {
        lemma_decimal_value_grows(digits, upto + 1);
        assert(digits.take(upto + 1).drop_last() =~= digits.take(upto));
    } else {
        assert(digits.take(upto) =~= digits);
    }
}

/// Reads an unsigned decimal number.
pub fn parse_u64(text: &str) -> (number: Option<u64>)
    ensures
        number == parsed_u64(text@),
{
    let total: usize = text.unicode_len();
    let first: usize = if total > 0 && text.get_char(0) == '+' { 1 } else { 0 };
    let ghost digits = unsigned_digits(text@);
    if first == total {
        return None;
    }
    let mut value: u64 = 0;
    let mut at: usize = first;
    proof {
        assert(digits.take(0) =~= Seq::<char>::empty());
    }
    while at < total
        invariant
            total == text@.len(),
            first <= at <= total,
            first <= 1,
            digits == unsigned_digits(text@),
            digits =~= text@.skip(first as int),
            digits.len() == total - first,
            forall|k: int| 0 <= k < at - first ==> is_digit(#[trigger] digits[k]),
            value == decimal_value(digits.take(at - first)),
        decreases total - at,
    {
        let ch: char = text.get_char(at);
        assert(ch == digits[at - first]);
        if ch < '0' || ch > '9' {
            assert(!is_digit(digits[at - first]));
            return None;
        }
        let digit: u64 = (ch as u32 - '0' as u32) as u64;
        proof {
            assert(digits.take(at - first + 1).drop_last() =~= digits.take(at - first));
            assert(digits.take(at - first + 1).last() == ch);
            assert(digit == digit_value(ch));
            assert(decimal_value(digits.take(at - first + 1)) == 10 * value + digit);
            lemma_decimal_value_grows(digits, at - first + 1);
        }
        if value > (u64::MAX - digit) / 10 {
            assert(10 * value + digit > u64::MAX);
            return None;
        }
        value = value * 10 + digit;
        at = at + 1;
    }
    assert(digits.take(total - first) =~= digits);
    Some(value)
}

/// The shortest decimal writing of a number.
pub open spec fn decimal_text(number: nat) -> Seq<char>
    decreases number,
{
    if number < 10 {
        seq![digit_char(number)]
    } else {
        decimal_text(number / 10).push(digit_char(number % 10))
    }
}

/// The digit for a number below ten.
fn digit_for(value: u32) -> (ch: char)
    requires
        value < 10,
    ensures
        ch == digit_char(value as nat),
{
    match value {
        0 => '0',
        1 => '1',
        2 => '2',
        3 => '3',
        4 => '4',
        5 => '5',
        6 => '6',
        7 => '7',
        8 => '8',
        _ => '9',
    }
}

/// Appends the decimal writing of a number to `text`.
fn write_decimal(number: u32, text: &mut String)
    ensures
        final(text)@ == old(text)@ + decimal_text(number as nat),
    decreases number,
{
    if number >= 10 {
        write_decimal(number / 10, text);
    }
    text.push(digit_for(number % 10));
    assert(text@ =~= old(text)@ + decimal_text(number as nat));
}

/// Writes a number in decimal, without sign or leading zeros.
pub fn decimal_string(number: u32) -> (text: String)
    ensures
        text@ == decimal_text(number as nat),
{
    let mut text: String = String::new();
    write_decimal(number, &mut text);
    assert(text@ =~= decimal_text(number as nat));
    text
}

} // verus!
