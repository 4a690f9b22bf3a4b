use vstd::prelude::*;

verus! {

/// What `str::to_uppercase` makes of a string: it depends on the characters alone.
pub uninterp spec fn upper_of(s: Seq<char>) -> Seq<char>;

/// Whether `char::is_numeric` holds of a character: it depends on the character alone.
pub uninterp spec fn numeric_char(c: char) -> bool;

/// Whether every character of the string is ASCII.
pub open spec fn all_ascii(s: Seq<char>) -> bool {
    forall|i: int| 0 <= i < s.len() ==> (#[trigger] s[i] as u32) < 128
}

/// Whether `u` is the ASCII upper-case form of `s`: 'a' to 'z' become 'A' to 'Z', every
/// other character is kept.
pub open spec fn is_ascii_upper_of(s: Seq<char>, u: Seq<char>) -> bool {
    &&& u.len() == s.len()
    &&& forall|i: int|
        0 <= i < s.len() ==> if 'a' <= #[trigger] s[i] <= 'z' {
            u[i] as u32 == s[i] as u32 - 32
        } else {
            u[i] == s[i]
        }
}

/// Relies on `str::to_uppercase`: the upper-case form of the string, which on ASCII text maps
/// 'a' to 'z' to 'A' to 'Z' and keeps every other character.
#[verifier::external_body]
pub(crate) fn uppercase(s: &str) -> (r: String)
    ensures
        r@ == upper_of(s@),
        all_ascii(s@) ==> is_ascii_upper_of(s@, r@),
{
    s.to_uppercase()
}

/// Relies on `char::is_numeric`: whether the character is in a numeric Unicode category.
#[verifier::external_body]
pub(crate) fn is_numeric(c: char) -> (r: bool)
    ensures
        r == numeric_char(c),
{
    c.is_numeric()
}

/// Relies on `char::from_u32`: the character with the given scalar value, if it is one
/// (at most 0x10FFFF and outside the surrogates 0xD800 to 0xDFFF).
#[verifier::external_body]
pub(crate) fn char_from_u32(i: u32) -> (r: Option<char>)
    ensures
        r is Some <==> (i <= 0x10FFFF && !(0xD800 <= i <= 0xDFFF)),
        r matches Some(c) ==> c as u32 == i,
{
    char::from_u32(i)
}

/// Relies on `String`'s `FromIterator<&char>`: the characters in order, as a string.
#[verifier::external_body]
pub(crate) fn string_from_chars(v: &Vec<char>) -> (r: String)
    ensures
        r@ == v@,
{
    v.iter().collect()
}

} // verus!
