//! Shape rules for short codes, custom slugs and redirect destinations.
//!
//! Short URLs use six hexadecimal characters, landing pages four; either may
//! instead use a custom slug: `!` followed by 1 to 24 characters of `a-z`,
//! `0-9`, `-` and `_`. A redirect destination must be an `http://` or
//! `https://` URL without control characters.

use vstd::prelude::*;
use crate::text::{chars_of, is_hex_char, is_hex_digit, has_prefix, starts_with};

verus! {

pub open spec fn slug_char(c: char) -> bool {
    ('a' <= c && c <= 'z') || ('0' <= c && c <= '9') || c == '-' || c == '_'
}

pub open spec fn is_custom_slug(s: Seq<char>) -> bool {
    &&& 2 <= s.len() <= 25
    &&& s[0] == '!'
    &&& forall|i: int| 1 <= i < s.len() ==> slug_char(#[trigger] s[i])
}

pub open spec fn is_hex_code(s: Seq<char>, n: nat) -> bool {
    s.len() == n && forall|i: int| 0 <= i < s.len() ==> is_hex_char(#[trigger] s[i])
}

pub open spec fn is_redirect_code(s: Seq<char>) -> bool {
    is_hex_code(s, 6) || is_custom_slug(s)
}

pub open spec fn is_page_code(s: Seq<char>) -> bool {
    is_hex_code(s, 4) || is_custom_slug(s)
}

pub open spec fn is_control(c: char) -> bool {
    (c as u32) < 32 || (c as u32) == 127
}

pub open spec fn is_redirect_destination(s: Seq<char>) -> bool {
    &&& (has_prefix(s, "http://"@) && s.len() > 7) || (has_prefix(s, "https://"@) && s.len() > 8)
    &&& forall|i: int| 0 <= i < s.len() ==> !is_control(#[trigger] s[i])
}

fn chars_are_hex(cs: &Vec<char>) -> (r: bool)
    ensures
        r == forall|i: int| 0 <= i < cs@.len() ==> is_hex_char(#[trigger] cs@[i]),
{
    for i in 0..cs.len()
        invariant
            forall|j: int| 0 <= j < i ==> is_hex_char(#[trigger] cs@[j]),
    {
        if !is_hex_digit(cs[i]) {
            return false;
        }
    }
    true
}

/// `s` is exactly `n` hexadecimal characters.
pub fn validate_hex_code(s: &str, n: usize) -> (r: bool)
    ensures
        r == is_hex_code(s@, n as nat),
{
    let cs = chars_of(s);
    cs.len() == n && chars_are_hex(&cs)
}

/// `!` followed by 1 to 24 characters of `a-z`, `0-9`, `-`, `_`.
pub fn validate_custom_slug(s: &str) -> (r: bool)
    ensures
        r == is_custom_slug(s@),
{
    let cs = chars_of(s);
    if cs.len() < 2 || cs.len() > 25 || cs[0] != '!' {
        return false;
    }
    for i in 1..cs.len()
        invariant
            cs@ == s@,
            2 <= cs.len() <= 25,
            cs@[0] == '!',
            forall|j: int| 1 <= j < i ==> slug_char(#[trigger] cs@[j]),
    {
        let c = cs[i];
        if !(('a' <= c && c <= 'z') || ('0' <= c && c <= '9') || c == '-' || c == '_') {
            return false;
        }
    }
    true
}

/// A short-URL code: six hexadecimal characters or a custom slug.
pub fn validate_redirect_code(s: &str) -> (r: bool)
    ensures
        r == is_redirect_code(s@),
{
    validate_hex_code(s, 6) || validate_custom_slug(s)
}

/// A landing-page code: four hexadecimal characters or a custom slug.
pub fn validate_page_code(s: &str) -> (r: bool)
    ensures
        r == is_page_code(s@),
{
    validate_hex_code(s, 4) || validate_custom_slug(s)
}

/// An `http://` or `https://` URL with something after the scheme and no
/// control characters (nothing below U+0020, no U+007F).
pub fn validate_redirect_destination(s: &str) -> (r: bool)
    ensures
        r == is_redirect_destination(s@),
{
    let cs = chars_of(s);
    let http = starts_with(s, "http://") && cs.len() > 7;
    let https = starts_with(s, "https://") && cs.len() > 8;
    if !(http || https) {
        return false;
    }
    for i in 0..cs.len()
        invariant
            cs@ == s@,
            forall|j: int| 0 <= j < i ==> !is_control(#[trigger] cs@[j]),
    {
        let c = cs[i];
        if (c as u32) < 32 || (c as u32) == 127 {
            return false;
        }
    }
    true
}

/// A custom slug is a valid code for both short URLs and landing pages, and no
/// hexadecimal code is ever a custom slug.
pub proof fn law_code_families(s: Seq<char>)
    ensures
        is_custom_slug(s) ==> is_redirect_code(s) && is_page_code(s),
        is_hex_code(s, 6) || is_hex_code(s, 4) ==> !is_custom_slug(s),
        !(is_hex_code(s, 6) && is_hex_code(s, 4)),
{
    if is_hex_code(s, 6) || is_hex_code(s, 4) {
        assert(is_hex_char(s[0]));
    }
}

} // verus!
