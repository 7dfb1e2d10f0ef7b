//! Text: what `std` does with strings where the library's rules rest on it.

use vstd::prelude::*;
use vstd::string::{StrSliceExecFns, StringSliceAdditionalSpecFns};
use vstd::utf8::{decode_utf8, is_char_boundary, valid_utf8};

verus! {

/// Whether `needle` stands in `haystack` at position `at`.
pub open spec fn occurs_at(needle: Seq<char>, haystack: Seq<char>, at: int) -> bool {
    0 <= at && at + needle.len() <= haystack.len() && haystack.subrange(at, at + needle.len())
        == needle
}

/// Whether `needle` occurs in `haystack` as a run of consecutive characters.
pub open spec fn occurs_in(needle: Seq<char>, haystack: Seq<char>) -> bool {
    exists|at: int| #[trigger] occurs_at(needle, haystack, at)
}

/// Where `needle` occurs in `haystack` for the first time.
#[verifier::opaque]
pub open spec fn first_occurrence(needle: Seq<char>, haystack: Seq<char>) -> int {
    choose|at: int|
        #[trigger] occurs_at(needle, haystack, at) && forall|before: int|
            before < at ==> !occurs_at(needle, haystack, before)
}

/// What follows the first occurrence of `needle` in `haystack`, if it occurs.
pub open spec fn after_first(needle: Seq<char>, haystack: Seq<char>) -> Option<Seq<char>> {
    if occurs_in(needle, haystack) {
        Some(haystack.skip(first_occurrence(needle, haystack) + needle.len()))
    } else {
        None
    }
}

/// What comes before the first occurrence of `needle` in `haystack`, or all
/// of it where `needle` does not occur.
pub open spec fn before_first(needle: Seq<char>, haystack: Seq<char>) -> Seq<char> {
    if occurs_in(needle, haystack) {
        haystack.take(first_occurrence(needle, haystack))
    } else {
        haystack
    }
}

/// Calls `str::split_once` with a string as the delimiter, which gives what
/// comes before and what follows the first occurrence of the delimiter, or
/// nothing where it does not occur.
#[verifier::external_body]
pub(crate) fn split_at_first<'a>(text: &'a str, delimiter: &str) -> (parts: Option<
    (&'a str, &'a str),
>)
    requires
        delimiter@.len() > 0,
    ensures
        parts is Some <==> occurs_in(delimiter@, text@),
        parts matches Some((before, after)) ==> before@ == before_first(delimiter@, text@)
            && Some(after@) == after_first(delimiter@, text@),
{
    text.split_once(delimiter)
}

/// Calls `str::contains` with a string as the pattern, which says whether the
/// pattern matches a part of the text.
#[verifier::external_body]
pub(crate) fn text_contains(haystack: &str, needle: &str) -> (found: bool)
    ensures
        found == occurs_in(needle@, haystack@),
{
    haystack.contains(needle)
}

/// The lowercase form that `str::to_lowercase` gives a text.
pub uninterp spec fn lowercase_of(text: Seq<char>) -> Seq<char>;

/// Calls `str::to_lowercase`, which gives the text with each character in
/// its lowercase form as Unicode defines it.
#[verifier::external_body]
pub(crate) fn lowercase(text: &str) -> (lowered: String)
    ensures
        lowered@ == lowercase_of(text@),
{
    text.to_lowercase()
}

/// Calls `String::from_utf8`, which gives the text that the bytes encode in
/// UTF-8 and fails where they are not UTF-8.
#[verifier::external_body]
pub(crate) fn text_from_utf8(bytes: Vec<u8>) -> (text: Option<String>)
    ensures
        text is Some <==> valid_utf8(bytes@),
        text matches Some(s) ==> s@ == decode_utf8(bytes@),
{
    match String::from_utf8(bytes) {
        Ok(s) => Some(s),
        Err(_) => None,
    }
}

/// Whether two texts are the same.
pub fn same_text(a: &str, b: &str) -> (same: bool)
    ensures
        same == (a@ == b@),
{
    a.to_owned() == b.to_owned()
}

/// The value of a hexadecimal digit.
pub open spec fn hex_digit_value(c: char) -> Option<nat> {
    if '0' <= c <= '9' {
        Some((c as u32 - '0' as u32) as nat)
    } else if 'a' <= c <= 'f' {
        Some((c as u32 - 'a' as u32 + 10) as nat)
    } else if 'A' <= c <= 'F' {
        Some((c as u32 - 'A' as u32 + 10) as nat)
    } else {
        None
    }
}

/// The number that hexadecimal digits stand for. There has to be a digit,
/// and nothing but digits.
pub open spec fn hex_number(digits: Seq<char>) -> Option<nat>
    decreases digits.len(),
{
    if digits.len() == 0 {
        None
    } else {
        match hex_digit_value(digits.last()) {
            Some(last) => if digits.len() == 1 {
                Some(last)
            } else {
                match hex_number(digits.drop_last()) {
                    Some(front) => Some(16 * front + last),
                    None => None,
                }
            },
            None => None,
        }
    }
}

/// The byte that a text stands for in hexadecimal: digits, after a plus sign
/// or without one, that stand for a number below 256.
pub open spec fn hex_byte_of(text: Seq<char>) -> Option<u8> {
    let digits = if text.len() > 0 && text[0] == '+' {
        text.skip(1)
    } else {
        text
    };
    match hex_number(digits) {
        Some(number) => if number < 256 {
            Some(number as u8)
        } else {
            None
        },
        None => None,
    }
}

/// Calls `u8::from_str_radix` with radix 16, which reads an optional plus
/// sign and hexadecimal digits, and fails on an empty text, on any other
/// character and on a number that is no `u8`.
#[verifier::external_body]
pub(crate) fn hex_byte(text: &str) -> (byte: Option<u8>)
    ensures
        byte == hex_byte_of(text@),
{
    match u8::from_str_radix(text, 16) {
        Ok(byte) => Some(byte),
        Err(_) => None,
    }
}

/// Whether the bytes from `from` to `to` of a text are a text of their own.
pub open spec fn is_piece(text: Seq<char>, from: int, to: int) -> bool {
    &&& 0 <= from <= to <= vstd::utf8::encode_utf8(text).len()
    &&& is_char_boundary(vstd::utf8::encode_utf8(text), from)
    &&& is_char_boundary(vstd::utf8::encode_utf8(text), to)
}

/// The text that the bytes from `from` to `to` of a text hold.
pub open spec fn piece_of(text: Seq<char>, from: int, to: int) -> Seq<char> {
    decode_utf8(vstd::utf8::encode_utf8(text).subrange(from, to))
}

/// Calls `str::get` with a range of byte positions, which gives that part
/// of the text, or nothing where the range leaves the text or cuts a
/// character.
#[verifier::external_body]
pub(crate) fn text_piece(text: &str, from: usize, to: usize) -> (piece: Option<&str>)
    ensures
        piece is Some <==> is_piece(text@, from as int, to as int),
        piece matches Some(part) ==> part@ == piece_of(text@, from as int, to as int),
{
    text.get(from..to)
}

/// The decimal digit for a number below ten.
pub open spec fn digit_char(digit: nat) -> char
    recommends
        digit < 10,
{
    if digit == 0 {
        '0'
    } else if digit == 1 {
        '1'
    } else if digit == 2 {
        '2'
    } else if digit == 3 {
        '3'
    } else if digit == 4 {
        '4'
    } else if digit == 5 {
        '5'
    } else if digit == 6 {
        '6'
    } else if digit == 7 {
        '7'
    } else if digit == 8 {
        '8'
    } else {
        '9'
    }
}

/// A number in decimal digits, without leading zeros.
pub open spec fn decimal_digits(number: nat) -> Seq<char>
    decreases number,
{
    if number < 10 {
        seq![digit_char(number)]
    } else {
        decimal_digits(number / 10).push(digit_char(number % 10))
    }
}

/// Calls `u64::to_string`, which writes the number in decimal digits.
#[verifier::external_body]
pub(crate) fn decimal_text(number: u64) -> (text: String)
    ensures
        text@ == decimal_digits(number as nat),
{
    number.to_string()
}

/// The pieces of a text between the occurrences of a separator: one more
/// piece than there are separators, empty pieces included.
pub open spec fn split_on(text: Seq<char>, separator: char) -> Seq<Seq<char>>
    decreases text.len(),
{
    if text.len() == 0 {
        seq![Seq::empty()]
    } else {
        let before = split_on(text.drop_last(), separator);
        if text.last() == separator {
            before.push(Seq::empty())
        } else {
            before.drop_last().push(before.last().push(text.last()))
        }
    }
}

/// The texts of a list of strings.
pub open spec fn texts_of(strings: Seq<String>) -> Seq<Seq<char>> {
    strings.map_values(|s: String| s@)
}

/// Splits a text at every occurrence of a separator.
pub fn split_text(text: &str, separator: char) -> (pieces: Vec<String>)
    ensures
        texts_of(pieces@) == split_on(text@, separator),
{
    let mut pieces: Vec<String> = Vec::new();
    let mut piece = String::new();
    for c in chars: text.chars()
        invariant
            chars.seq() == text@,
            texts_of(pieces@).push(piece@) == split_on(text@.take(chars.index()), separator),
    {
        let ghost at = chars.index();
        proof {
            let front = text@.take(at + 1);
            assert(front.drop_last() =~= text@.take(at));
        }
        if c == separator {
            pieces.push(piece);
            piece = String::new();
        } else {
            push_char(&mut piece, c);
        }
    }
    assert(text@.take(text@.len() as int) =~= text@);
    pieces.push(piece);
    pieces
}

/// The text without the characters `c` that it starts with.
pub open spec fn without_leading(text: Seq<char>, c: char) -> Seq<char>
    decreases text.len(),
{
    if text.len() > 0 && text[0] == c {
        without_leading(text.skip(1), c)
    } else {
        text
    }
}

/// Calls `str::trim_start_matches` with a character as the pattern, which
/// gives the text without the repeated pattern at its start.
#[verifier::external_body]
pub(crate) fn trim_leading(text: &str, c: char) -> (rest: &str)
    ensures
        rest@ == without_leading(text@, c),
{
    text.trim_start_matches(c)
}

/// Calls `String::push`, which appends one character to the text.
#[verifier::external_body]
pub(crate) fn push_char(text: &mut String, c: char)
    ensures
        final(text)@ == old(text)@.push(c),
{
    text.push(c)
}

} // verus!
