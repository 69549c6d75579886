//! Character-level helpers shared by the rest of the library.

use vstd::prelude::*;

verus! {

/// Appends one character to a `String` (std `String::push`).
#[verifier::external_body]
pub(crate) fn push_char(s: &mut String, c: char)
    ensures
        final(s)@ == old(s)@.push(c),
{
    s.push(c);
}

/// The characters of `s`, in order.
pub fn chars_of(s: &str) -> (r: Vec<char>)
    ensures
        r@ == s@,
{
    let mut out: Vec<char> = Vec::new();
    for c in it: s.chars()
        invariant
            out.len() == it.index(),
            forall|i: int| 0 <= i < out.len() ==> out@[i] == it.seq()[i],
    {
        out.push(c);
    }
    assert(out@ =~= s@);
    out
}

/// `a` followed by `b`, as a new `String`.
pub fn join_text(a: &str, b: &str) -> (r: String)
    ensures
        r@ == a@ + b@,
{
    let mut out = String::from_str(a);
    out.append(b);
    out
}

/// Builds a `String` holding exactly the given characters.
pub fn string_of(v: &Vec<char>) -> (r: String)
    ensures
        r@ == v@,
{
    let mut out = String::new();
    for i in 0..v.len()
        invariant
            out@ == v@.take(i as int),
    {
        push_char(&mut out, v[i]);
        assert(v@.take(i + 1) =~= v@.take(i as int).push(v@[i as int]));
    }
    assert(v@.take(v.len() as int) =~= v@);
    out
}

} // verus!

verus! {

/// The ASCII character for a decimal digit.
pub open spec fn digit_char(d: nat) -> char
    recommends
        d < 10,
{
    (d + 48) as char
}

/// Decimal rendering of a natural number, most significant digit first,
/// without leading zeros (a lone `0` for zero).
pub open spec fn nat_decimal(n: nat) -> Seq<char>
    decreases n,
{
    if n < 10 {
        seq![digit_char(n)]
    } else {
        nat_decimal(n / 10).push(digit_char(n % 10))
    }
}

/// Decimal rendering of an integer, as `Display` prints it: a leading `-`
/// for negative values.
pub open spec fn int_decimal(i: int) -> Seq<char> {
    if i < 0 {
        seq!['-'] + nat_decimal((-i) as nat)
    } else {
        nat_decimal(i as nat)
    }
}

fn push_decimal_digits(out: &mut Vec<char>, n: u64)
    ensures
        final(out)@ == old(out)@ + nat_decimal(n as nat),
    decreases n,
{
    if n >= 10 {
        push_decimal_digits(out, n / 10);
    }
    let d = (n % 10) as u8;
    let c = (d + 48u8) as char;
    out.push(c);
    proof {
        if n >= 10 {
            assert(old(out)@ + nat_decimal(n as nat) =~= old(out)@ + nat_decimal((n / 10) as nat)
                + seq![digit_char((n % 10) as nat)]);
        } else {
            assert(old(out)@ + nat_decimal(n as nat) =~= old(out)@ + seq![digit_char(n as nat)]);
        }
    }
}

/// Renders an unsigned integer in decimal (std `u64` `Display`).
pub fn u64_decimal(n: u64) -> (r: String)
    ensures
        r@ == nat_decimal(n as nat),
{
    let mut v: Vec<char> = Vec::new();
    push_decimal_digits(&mut v, n);
    assert(v@ =~= nat_decimal(n as nat));
    string_of(&v)
}

/// Renders a signed integer in decimal (std `i64` `Display`).
pub fn i64_decimal(n: i64) -> (r: String)
    ensures
        r@ == int_decimal(n as int),
{
    let mut v: Vec<char> = Vec::new();
    if n < 0 {
        v.push('-');
        let m: u64 = ((-(n + 1)) as u64) + 1;
        push_decimal_digits(&mut v, m);
        assert(v@ =~= seq!['-'] + nat_decimal((-(n as int)) as nat));
    } else {
        push_decimal_digits(&mut v, n as u64);
        assert(v@ =~= nat_decimal(n as nat));
    }
    string_of(&v)
}

} // verus!

verus! {

pub open spec fn is_digit(c: char) -> bool {
    '0' <= c && c <= '9'
}

pub open spec fn all_digits(s: Seq<char>) -> bool {
    forall|i: int| 0 <= i < s.len() ==> is_digit(#[trigger] s[i])
}

/// Value of a string of decimal digits.
pub open spec fn digits_value(s: Seq<char>) -> nat
    decreases s.len(),
{
    if s.len() == 0 {
        0
    } else {
        digits_value(s.drop_last()) * 10 + ((s.last() as nat) - 48) as nat
    }
}

/// What std's integer `FromStr` accepts: an optional `+` or `-` sign followed
/// by one or more ASCII digits, nothing else.
pub open spec fn parse_int_text(s: Seq<char>) -> Option<int> {
    let signed = s.len() > 0 && (s[0] == '+' || s[0] == '-');
    let neg = s.len() > 0 && s[0] == '-';
    let body = if signed { s.drop_first() } else { s };
    if body.len() == 0 || !all_digits(body) {
        None
    } else if neg {
        Some(-(digits_value(body) as int))
    } else {
        Some(digits_value(body) as int)
    }
}

/// `str::parse::<i64>`: the parsed value when it is well formed and in range.
pub open spec fn parse_i64_text(s: Seq<char>) -> Option<i64> {
    match parse_int_text(s) {
        Some(v) => if i64::MIN <= v <= i64::MAX {
            Some(v as i64)
        } else {
            None
        },
        None => None,
    }
}

proof fn lemma_digits_value_push(s: Seq<char>, c: char)
    ensures
        digits_value(s.push(c)) == digits_value(s) * 10 + ((c as nat) - 48) as nat,
{
    assert(s.push(c).drop_last() =~= s);
}

/// Parses a signed 64-bit integer (std `i64::from_str`).
pub fn parse_i64(s: &str) -> (r: Option<i64>)
    ensures
        r == parse_i64_text(s@),
{
    let cs = chars_of(s);
    let n = cs.len();
    if n == 0 {
        return None;
    }
    let neg = cs[0] == '-';
    let start: usize = if cs[0] == '+' || cs[0] == '-' { 1 } else { 0 };
    if start == n {
        return None;
    }
    let ghost body = cs@.subrange(start as int, n as int);
    let limit: u128 = 9223372036854775808;
    let mut acc: u128 = 0;
    let mut capped = false;
    proof {
        if start == 1 {
            assert(body =~= s@.drop_first());
        } else {
            assert(body =~= s@);
        }
    }
    let mut i = start;
    while i < n
        invariant
            limit == 9223372036854775808,
            start == 1 ==> body == s@.drop_first(),
            start == 0 ==> body == s@,
            start == 1 <==> (s@[0] == '+' || s@[0] == '-'),
            neg == (s@[0] == '-'),
            start <= i <= n,
            n == cs@.len(),
            cs@ == s@,
            body == cs@.subrange(start as int, n as int),
            all_digits(cs@.subrange(start as int, i as int)),
            acc <= limit,
            capped ==> digits_value(cs@.subrange(start as int, i as int)) > limit,
            !capped ==> acc == digits_value(cs@.subrange(start as int, i as int)),
        decreases n - i,
    {
        let c = cs[i];
        if !('0' <= c && c <= '9') {
            assert(body[i - start] == c);
            return None;
        }
        let d = (c as u32 - 48) as u128;
        proof {
            assert(cs@.subrange(start as int, i + 1) =~= cs@.subrange(start as int, i as int).push(c));
            lemma_digits_value_push(cs@.subrange(start as int, i as int), c);
        }
        if !capped {
            let next = acc * 10 + d;
            if next > limit {
                capped = true;
            } else {
                acc = next;
            }
        }
        i = i + 1;
    }
    assert(cs@.subrange(start as int, n as int) =~= body);
    if capped {
        return None;
    }
    if neg {
        let v: i128 = -(acc as i128);
        Some(v as i64)
    } else if acc < limit {
        Some(acc as i64)
    } else {
        None
    }
}

proof fn lemma_nat_decimal_digits(n: nat)
    ensures
        nat_decimal(n).len() > 0,
        all_digits(nat_decimal(n)),
        digits_value(nat_decimal(n)) == n,
    decreases n,
{
    if n < 10 {
        assert(seq![digit_char(n)].drop_last() =~= Seq::<char>::empty());
        assert((digit_char(n) as nat) == n + 48);
        assert(digits_value(Seq::<char>::empty()) == 0);
        assert(digits_value(seq![digit_char(n)]) == n);
    } else {
        assert((digit_char(n % 10) as nat) == n % 10 + 48);
        lemma_nat_decimal_digits(n / 10);
        let d = nat_decimal(n / 10);
        lemma_digits_value_push(d, digit_char(n % 10));
        assert(nat_decimal(n) == d.push(digit_char(n % 10)));
        assert(digits_value(nat_decimal(n)) == (n / 10) * 10 + n % 10);
        assert forall|i: int| 0 <= i < nat_decimal(n).len() implies is_digit(#[trigger] nat_decimal(n)[i]) by {
            if i < d.len() {
                assert(nat_decimal(n)[i] == d[i]);
            }
        }
    }
}

/// Rendering an `i64` in decimal and parsing it back gives the same value.
pub proof fn law_decimal_roundtrip(i: i64)
    ensures
        parse_i64_text(int_decimal(i as int)) == Some(i),
{
    if i < 0 {
        let m = (-i) as nat;
        lemma_nat_decimal_digits(m);
        let s = int_decimal(i as int);
        assert(s[0] == '-');
        assert(s.drop_first() =~= nat_decimal(m));
    } else {
        lemma_nat_decimal_digits(i as nat);
        let s = nat_decimal(i as nat);
        assert(is_digit(s[0]));
    }
}

} // verus!

verus! {

/// The text without its leading Unicode `White_Space` characters.
pub open spec fn trim_leading(s: Seq<char>) -> Seq<char>
    decreases s.len(),
{
    if s.len() > 0 && crate::system::white_space(s[0]) {
        trim_leading(s.drop_first())
    } else {
        s
    }
}

/// The text without its trailing Unicode `White_Space` characters.
pub open spec fn trim_trailing(s: Seq<char>) -> Seq<char>
    decreases s.len(),
{
    if s.len() > 0 && crate::system::white_space(s.last()) {
        trim_trailing(s.drop_last())
    } else {
        s
    }
}

/// What std `str::trim` leaves of a string: the text without leading and
/// trailing Unicode `White_Space` characters.
pub open spec fn trimmed(s: Seq<char>) -> Seq<char> {
    trim_trailing(trim_leading(s))
}

/// What std `str::to_lowercase` produces (full Unicode lowercase mapping).
pub uninterp spec fn lowercased(s: Seq<char>) -> Seq<char>;

/// What std `char::is_alphanumeric` answers (Unicode `Alphabetic` or `Numeric`).
pub uninterp spec fn alphanumeric(c: char) -> bool;

/// What std's `Debug` formatting of a `str` prints: the text in double quotes
/// with quotes, backslashes and non-printable characters escaped.
pub uninterp spec fn debug_text(s: Seq<char>) -> Seq<char>;

/// std `str::trim`: the slice without leading and trailing whitespace,
/// whitespace being the Unicode `White_Space` property (as the std
/// documentation defines it).
#[verifier::external_body]
pub(crate) fn trim_str<'a>(s: &'a str) -> (r: &'a str)
    ensures
        r@ == trimmed(s@),
{
    s.trim()
}

/// std `str::to_lowercase`.
#[verifier::external_body]
pub(crate) fn lowercase_str(s: &str) -> (r: String)
    ensures
        r@ == lowercased(s@),
{
    s.to_lowercase()
}

/// std `char::is_alphanumeric`.
#[verifier::external_body]
pub(crate) fn char_is_alphanumeric(c: char) -> (r: bool)
    ensures
        r == alphanumeric(c),
{
    c.is_alphanumeric()
}

/// std `Debug` of a `str` (`format!("{:?}", s)`).
#[verifier::external_body]
pub(crate) fn debug_str(s: &str) -> (r: String)
    ensures
        r@ == debug_text(s@),
{
    format!("{:?}", s)
}

/// ASCII hexadecimal digit (std `char::is_ascii_hexdigit`).
pub open spec fn is_hex_char(c: char) -> bool {
    ('0' <= c && c <= '9') || ('a' <= c && c <= 'f') || ('A' <= c && c <= 'F')
}

pub fn is_hex_digit(c: char) -> (r: bool)
    ensures
        r == is_hex_char(c),
{
    ('0' <= c && c <= '9') || ('a' <= c && c <= 'f') || ('A' <= c && c <= 'F')
}

/// ASCII lowercase of one character (std `char::to_ascii_lowercase`).
pub open spec fn ascii_lower(c: char) -> char {
    if 'A' <= c && c <= 'Z' {
        ((c as u32) + 32) as char
    } else {
        c
    }
}

pub fn ascii_lower_char(c: char) -> (r: char)
    ensures
        r == ascii_lower(c),
{
    if 'A' <= c && c <= 'Z' {
        ((c as u8) + 32) as char
    } else {
        c
    }
}

/// `s` holds the character `c` somewhere.
pub fn contains_char(s: &str, c: char) -> (r: bool)
    ensures
        r == s@.contains(c),
{
    let cs = chars_of(s);
    for i in 0..cs.len()
        invariant
            cs@ == s@,
            forall|j: int| 0 <= j < i ==> cs@[j] != c,
    {
        if cs[i] == c {
            return true;
        }
    }
    false
}

/// `needle` occurs in `hay` starting at position `i`.
pub open spec fn occurs_at(hay: Seq<char>, needle: Seq<char>, i: int) -> bool {
    0 <= i && i + needle.len() <= hay.len() && hay.subrange(i, i + needle.len()) == needle
}

/// `needle` occurs somewhere in `hay` (std `str::contains` with a `&str`).
pub open spec fn contains_text(hay: Seq<char>, needle: Seq<char>) -> bool {
    exists|i: int| occurs_at(hay, needle, i)
}

pub fn seq_occurs_at(hay: &Vec<char>, needle: &Vec<char>, i: usize) -> (r: bool)
    ensures
        r == occurs_at(hay@, needle@, i as int),
{
    if i > hay.len() || needle.len() > hay.len() - i {
        return false;
    }
    for k in 0..needle.len()
        invariant
            i + needle.len() <= hay.len(),
            forall|j: int| 0 <= j < k ==> hay@[i + j] == needle@[j],
    {
        if hay[i + k] != needle[k] {
            assert(hay@.subrange(i as int, i + needle.len())[k as int] != needle@[k as int]);
            return false;
        }
    }
    assert(hay@.subrange(i as int, i + needle.len()) =~= needle@);
    true
}

pub fn contains_str(hay: &str, needle: &str) -> (r: bool)
    ensures
        r == contains_text(hay@, needle@),
{
    let h = chars_of(hay);
    let n = chars_of(needle);
    if n.len() == 0 {
        assert(hay@.subrange(0, 0) =~= needle@);
        assert(occurs_at(hay@, needle@, 0));
        return true;
    }
    let mut i: usize = 0;
    while i < h.len()
        invariant
            h@ == hay@,
            n@ == needle@,
            n.len() > 0,
            forall|j: int| 0 <= j < i ==> !occurs_at(hay@, needle@, j),
        decreases h.len() - i,
    {
        if seq_occurs_at(&h, &n, i) {
            return true;
        }
        i = i + 1;
    }
    assert forall|j: int| !occurs_at(hay@, needle@, j) by {
        if 0 <= j && j < i {
        }
    }
    false
}

/// Character-wise equality of two strings.
pub fn str_eq(a: &str, b: &str) -> (r: bool)
    ensures
        r == (a@ == b@),
{
    let x = chars_of(a);
    let y = chars_of(b);
    if x.len() != y.len() {
        return false;
    }
    for i in 0..x.len()
        invariant
            x@ == a@,
            y@ == b@,
            x.len() == y.len(),
            forall|j: int| 0 <= j < i ==> x@[j] == y@[j],
    {
        if x[i] != y[i] {
            return false;
        }
    }
    assert(x@ =~= y@);
    true
}

/// `s` begins with `p`.
pub open spec fn has_prefix(s: Seq<char>, p: Seq<char>) -> bool {
    p.len() <= s.len() && s.subrange(0, p.len() as int) == p
}

/// `s` ends with `p`.
pub open spec fn has_suffix(s: Seq<char>, p: Seq<char>) -> bool {
    p.len() <= s.len() && s.subrange(s.len() - p.len(), s.len() as int) == p
}

pub fn starts_with(s: &str, p: &str) -> (r: bool)
    ensures
        r == has_prefix(s@, p@),
{
    let x = chars_of(s);
    let y = chars_of(p);
    let r = seq_occurs_at(&x, &y, 0);
    proof {
        if r {
            assert(has_prefix(s@, p@));
        }
        if has_prefix(s@, p@) {
            assert(occurs_at(x@, y@, 0));
        }
    }
    r
}

pub fn ends_with(s: &str, p: &str) -> (r: bool)
    ensures
        r == has_suffix(s@, p@),
{
    let x = chars_of(s);
    let y = chars_of(p);
    if y.len() > x.len() {
        return false;
    }
    seq_occurs_at(&x, &y, x.len() - y.len())
}

} // verus!

verus! {

/// The pieces of `s` between occurrences of `sep`, in order (std
/// `str::split` with a `char`): one more piece than there are separators,
/// empty pieces included.
pub open spec fn split_on(s: Seq<char>, sep: char) -> Seq<Seq<char>>
    decreases s.len(),
{
    if s.len() == 0 {
        seq![Seq::<char>::empty()]
    } else {
        let parts = split_on(s.drop_last(), sep);
        if s.last() == sep {
            parts.push(Seq::empty())
        } else {
            parts.update(parts.len() - 1, parts.last().push(s.last()))
        }
    }
}

/// The texts of a list of strings.
pub open spec fn texts(v: Seq<String>) -> Seq<Seq<char>> {
    v.map_values(|x: String| x@)
}

/// Splits `s` at every `sep`.
pub fn split_char(s: &str, sep: char) -> (r: Vec<String>)
    ensures
        texts(r@) == split_on(s@, sep),
{
    let cs = chars_of(s);
    let mut pieces: Vec<String> = Vec::new();
    let mut cur: Vec<char> = Vec::new();
    let mut i: usize = 0;
    assert(s@.take(0) =~= Seq::<char>::empty());
    while i < cs.len()
        invariant
            cs@ == s@,
            i <= cs.len(),
            split_on(s@.take(i as int), sep) == texts(pieces@).push(cur@),
        decreases cs.len() - i,
    {
        let c = cs[i];
        let ghost before = s@.take(i as int);
        let ghost old_texts = texts(pieces@);
        let ghost old_cur = cur@;
        assert(s@.take(i + 1).drop_last() =~= before);
        assert(s@.take(i + 1).last() == c);
        if c == sep {
            let piece = string_of(&cur);
            pieces.push(piece);
            cur = Vec::new();
            assert(texts(pieces@) =~= old_texts.push(old_cur));
            assert(cur@ =~= Seq::<char>::empty());
        } else {
            cur.push(c);
            assert(old_texts.push(old_cur).update(old_texts.len() as int, old_cur.push(c)) =~= old_texts.push(cur@));
        }
        i = i + 1;
    }
    assert(s@.take(cs.len() as int) =~= s@);
    let ghost old_texts = texts(pieces@);
    let last = string_of(&cur);
    pieces.push(last);
    assert(texts(pieces@) =~= old_texts.push(last@));
    pieces
}

} // verus!
