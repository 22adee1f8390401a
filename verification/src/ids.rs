//! Identifiers written as UUIDs, read through the `uuid` crate.

use vstd::prelude::*;
use vstd::arithmetic::power::pow;

verus! {

/// The 128-bit value that `uuid::Uuid::parse_str` reads from `s`, or `None`
/// where it refuses `s` (it accepts the simple, hyphenated, URN and braced
/// forms of 32 hexadecimal digits).
pub uninterp spec fn uuid_value(s: Seq<char>) -> Option<u128>;

/// `uuid::Uuid::parse_str(s)`, taken as its 128-bit value. Its result is
/// named by [`uuid_value`]; the accepted forms are not restated.
#[verifier::external_body]
fn uuid_parse(s: &str) -> (r: Option<u128>)
    ensures
        r == uuid_value(s@),
{
    match uuid::Uuid::parse_str(s) {
        Ok(u) => Some(u.as_u128()),
        Err(_) => None,
    }
}

/// The message (`Display`) of the error `uuid::Uuid::parse_str` gives for
/// `s`; it names the first fault found and is not restated.
pub uninterp spec fn uuid_error_text(s: Seq<char>) -> Seq<char>;

/// The message of `uuid::Uuid::parse_str(s)`'s error, `None` when it
/// accepts `s` (the same parse as [`uuid_parse`]).
#[verifier::external_body]
fn uuid_parse_error(s: &str) -> (r: Option<String>)
    ensures
        r is Some <==> uuid_value(s@) is None,
        r is Some ==> r->0@ == uuid_error_text(s@),
{
    uuid::Uuid::parse_str(s).err().map(|e| e.to_string())
}

/// Why `s` is not a UUID, or `None` when it is one.
pub fn uuid_problem(s: &str) -> (r: Option<String>)
    ensures
        r is Some <==> uuid_value(s@) is None,
        r is Some ==> r->0@ == uuid_error_text(s@),
{
    uuid_parse_error(s)
}

/// The UUID written as `s`, or `None` when `s` is not a UUID.
pub fn parse_uuid(s: &str) -> (r: Option<u128>)
    ensures
        r == uuid_value(s@),
{
    uuid_parse(s)
}


/// The lowercase hexadecimal digit of `d` (0 to 15).
pub open spec fn hex_char(d: int) -> char {
    if d < 10 {
        (48 + d) as char
    } else {
        (87 + d) as char
    }
}

/// The `k`-th of the 32 hexadecimal digits of `v`, most significant first.
pub open spec fn nibble_char(v: u128, k: int) -> char {
    hex_char((v as int / pow(16, (31 - k) as nat)) % 16)
}

/// How many hyphens stand before position `i` of a hyphenated UUID.
pub open spec fn hyphens_before(i: int) -> int {
    if i < 8 {
        0
    } else if i < 13 {
        1
    } else if i < 18 {
        2
    } else if i < 23 {
        3
    } else {
        4
    }
}

/// The hyphenated lowercase text of a UUID, as `uuid::Uuid` prints it: its
/// 32 hexadecimal digits, most significant first, in groups of 8, 4, 4, 4
/// and 12 joined by `-`.
pub open spec fn uuid_string(v: u128) -> Seq<char> {
    Seq::new(
        36,
        |i: int|
            if i == 8 || i == 13 || i == 18 || i == 23 {
                '-'
            } else {
                nibble_char(v, i - hyphens_before(i))
            },
    )
}

/// Whether `c` may appear in a hyphenated UUID: a lowercase hex digit or `-`.
pub open spec fn uuid_text_char(c: char) -> bool {
    ('0' <= c && c <= '9') || ('a' <= c && c <= 'f') || c == '-'
}

/// The hyphenated text is 36 characters, each a lowercase hex digit or `-`.
proof fn lemma_uuid_string_shape(v: u128)
    ensures
        uuid_string(v).len() == 36,
        forall|i: int| 0 <= i < 36 ==> uuid_text_char(#[trigger] uuid_string(v)[i]),
{
    assert forall|i: int| 0 <= i < 36 implies uuid_text_char(#[trigger] uuid_string(v)[i]) by {
        if !(i == 8 || i == 13 || i == 18 || i == 23) {
            let d = (v as int / pow(16, (31 - (i - hyphens_before(i))) as nat)) % 16;
            assert(0 <= d < 16);
        }
    }
}

/// `uuid::Uuid::from_u128(v).to_string()`: the hyphenated lowercase form
/// ([`uuid_string`]), which `parse_str` reads back as `v`.
#[verifier::external_body]
fn uuid_to_text(v: u128) -> (r: String)
    ensures
        r@ == uuid_string(v),
        uuid_value(r@) == Some(v),
{
    uuid::Uuid::from_u128(v).to_string()
}

/// The hyphenated text of a UUID.
pub fn uuid_text(v: u128) -> (r: String)
    ensures
        r@ == uuid_string(v),
        r@.len() == 36,
        forall|i: int| 0 <= i < r@.len() ==> uuid_text_char(#[trigger] r@[i]),
        uuid_value(r@) == Some(v),
{
    let r = uuid_to_text(v);
    proof {
        lemma_uuid_string_shape(v);
    }
    r
}

} // verus!
