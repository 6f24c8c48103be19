//! Character and string helpers shared by the name rules and the parsers.
use vstd::prelude::*;
use vstd::string::StringExecFns;

verus! {

/// What `char::is_uppercase` answers for a character (the Unicode `Uppercase` property).
pub uninterp spec fn char_uppercase_property(c: char) -> bool;

/// The characters that `char::to_uppercase` yields for a character.
pub uninterp spec fn char_upper_mapping(c: char) -> Seq<char>;

/// The characters that `char::to_lowercase` yields for a character.
pub uninterp spec fn char_lower_mapping(c: char) -> Seq<char>;

/// ASCII letter 'a'..='z'.
pub open spec fn is_ascii_lower(c: char) -> bool {
    'a' <= c && c <= 'z'
}

/// ASCII letter 'A'..='Z'.
pub open spec fn is_ascii_upper(c: char) -> bool {
    'A' <= c && c <= 'Z'
}

/// An ASCII character.
pub open spec fn is_ascii_char(c: char) -> bool {
    (c as u32) < 128
}

/// Whether a character is uppercase: among ASCII characters exactly 'A'..='Z'.
pub open spec fn uppercase_property(c: char) -> bool {
    if is_ascii_char(c) {
        is_ascii_upper(c)
    } else {
        char_uppercase_property(c)
    }
}

/// The uppercase mapping of a character: 'a'..='z' map to 'A'..='Z', other
/// ASCII characters to themselves.
pub open spec fn upper_mapping(c: char) -> Seq<char> {
    if is_ascii_lower(c) {
        seq![((c as u32) - 32) as char]
    } else if is_ascii_char(c) {
        seq![c]
    } else {
        char_upper_mapping(c)
    }
}

/// The lowercase mapping of a character: 'A'..='Z' map to 'a'..='z', other
/// ASCII characters to themselves.
pub open spec fn lower_mapping(c: char) -> Seq<char> {
    if is_ascii_upper(c) {
        seq![((c as u32) + 32) as char]
    } else if is_ascii_char(c) {
        seq![c]
    } else {
        char_lower_mapping(c)
    }
}

/// Calls `char::is_uppercase`. The contract claims that the answer is the
/// character's `Uppercase` property, which holds of 'A'..='Z' and of no other
/// ASCII character.
#[verifier::external_body]
pub fn is_uppercase(c: char) -> (b: bool)
    ensures
        b == uppercase_property(c),
        !is_ascii_char(c) ==> b == char_uppercase_property(c),
{
    c.is_uppercase()
}

/// Calls `char::to_uppercase` and collects what it yields. The contract claims
/// that the result is the character's uppercase mapping, never empty, with
/// 'a'..='z' mapped to 'A'..='Z' and other ASCII characters to themselves.
#[verifier::external_body]
pub fn uppercase_of(c: char) -> (v: Vec<char>)
    ensures
        v@ == upper_mapping(c),
        !is_ascii_char(c) ==> v@ == char_upper_mapping(c),
        v@.len() >= 1,
{
    c.to_uppercase().collect()
}

/// Calls `char::to_lowercase` and collects what it yields. The contract claims
/// that the result is the character's lowercase mapping, never empty, with
/// 'A'..='Z' mapped to 'a'..='z' and other ASCII characters to themselves.
#[verifier::external_body]
pub fn lowercase_of(c: char) -> (v: Vec<char>)
    ensures
        v@ == lower_mapping(c),
        !is_ascii_char(c) ==> v@ == char_lower_mapping(c),
        v@.len() >= 1,
{
    c.to_lowercase().collect()
}

/// Collects characters into a `String` (`FromIterator<char>` for `String`).
#[verifier::external_body]
pub fn string_from_chars(v: &Vec<char>) -> (s: String)
    ensures
        s@ == v@,
{
    v.iter().collect()
}

/// The characters of a string slice, in order.
pub fn chars_of(s: &str) -> (v: Vec<char>)
    ensures
        v@ == s@,
{
    let mut v: Vec<char> = Vec::new();
    for c in it: s.chars()
        invariant
            v@ == it.seq().take(it.index()),
            it.seq() == s@,
    {
        v.push(c);
    }
    v
}

/// The characters of `a` followed by those of `b`.
pub fn concat_text(a: &str, b: &str) -> (r: String)
    ensures
        r@ == a@ + b@,
{
    String::from_str(a).concat(b)
}

/// The character of a decimal digit.
pub open spec fn digit_char(d: nat) -> char {
    ((d + 48) as u32) as char
}

/// The decimal numeral of `n`: its digits, most significant first, with no
/// leading zeros (`0` is written `0`).
pub open spec fn decimal(n: nat) -> Seq<char>
    decreases n,
{
    if n < 10 {
        seq![digit_char(n)]
    } else {
        decimal(n / 10).push(digit_char(n % 10))
    }
}

fn digit_of(d: u32) -> (c: char)
    requires
        d < 10,
    ensures
        c == digit_char(d as nat),
{
    match d {
        0 => '0',
        1 => '1',
        2 => '2',
        3 => '3',
        4 => '4',
        5 => '5',
        6 => '6',
        7 => '7',
        8 => '8',
        _ => '9',
    }
}

fn push_decimal(out: &mut Vec<char>, n: u32)
    ensures
        final(out)@ == old(out)@ + decimal(n as nat),
    decreases n,
{
    if n < 10 {
        out.push(digit_of(n));
    } else {
        push_decimal(out, n / 10);
        out.push(digit_of(n % 10));
        assert(out@ =~= old(out)@ + decimal(n as nat));
    }
}

/// The decimal numeral of `n` (see [`decimal`]).
pub fn decimal_text(n: u32) -> (r: String)
    ensures
        r@ == decimal(n as nat),
{
    let mut v: Vec<char> = Vec::new();
    push_decimal(&mut v, n);
    assert(v@ =~= decimal(n as nat));
    string_from_chars(&v)
}

} // verus!
