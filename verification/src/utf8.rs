//! Text: conversion of received bytes to text, trimming, upper-casing and
//! UTF-16 code units.

use vstd::prelude::*;
use vstd::utf8::{decode_utf8, is_ascii_chars, valid_utf8};

verus! {

/// `String::from_utf8`: the text of bytes that are valid UTF-8, `None`
/// otherwise.
#[verifier::external_body]
pub fn utf8_to_string(bytes: Vec<u8>) -> (r: Option<String>)
    ensures
        r is Some <==> valid_utf8(bytes@),
        r matches Some(s) ==> s@ == decode_utf8(bytes@),
{
    String::from_utf8(bytes).ok()
}


/// Whether a character is white space (the Unicode `White_Space`
/// property).
pub open spec fn is_white_space(c: char) -> bool {
    let u = c as u32;
    ||| 9 <= u <= 13
    ||| u == 32
    ||| u == 0x85
    ||| u == 0xA0
    ||| u == 0x1680
    ||| 0x2000 <= u <= 0x200A
    ||| u == 0x2028
    ||| u == 0x2029
    ||| u == 0x202F
    ||| u == 0x205F
    ||| u == 0x3000
}

/// Text without its trailing white space.
pub open spec fn trim_end_chars(s: Seq<char>) -> Seq<char>
    decreases s.len(),
{
    if s.len() > 0 && is_white_space(s.last()) {
        trim_end_chars(s.drop_last())
    } else {
        s
    }
}

/// `str::trim_end`: the text without its trailing white space.
#[verifier::external_body]
pub fn trim_end_text(s: &str) -> (r: String)
    ensures
        r@ == trim_end_chars(s@),
{
    s.trim_end().to_string()
}

/// What `str::to_uppercase` makes of a text: each character replaced by its
/// upper-case mapping under the Unicode character database.
pub uninterp spec fn uppercase_text(s: Seq<char>) -> Seq<char>;

/// The upper-case form of an ASCII character: the letters `a` to `z` become
/// `A` to `Z`, every other character stays.
pub open spec fn ascii_upper_char(c: char) -> char {
    if 'a' <= c <= 'z' {
        ((c as u32) - 32) as char
    } else {
        c
    }
}

/// Each character of a text in its ASCII upper-case form.
pub open spec fn ascii_upper_chars(s: Seq<char>) -> Seq<char> {
    s.map_values(|c: char| ascii_upper_char(c))
}

/// `str::to_uppercase`: the text upper-cased. Each character maps to one or
/// more characters, so the result is at least as long as the text. For
/// ASCII text the mapping is that of the ASCII letters (as
/// `to_ascii_uppercase` documents it); beyond ASCII it is not stated.
#[verifier::external_body]
pub fn to_uppercase_text(s: &str) -> (r: String)
    ensures
        r@ == uppercase_text(s@),
        r@.len() >= s@.len(),
        is_ascii_chars(s@) ==> r@ == ascii_upper_chars(s@),
{
    s.to_uppercase()
}

/// `str::encode_utf16`, collected: the UTF-16 code units of the text.
#[verifier::external_body]
pub fn utf16_code_units(s: &str) -> (r: Vec<u16>)
    ensures
        r@ == crate::encryption::utf16_units(s@),
{
    s.encode_utf16().collect()
}

} // verus!
