//! Fresh identifiers: track ids `{prefix}_{time stamp}_{8 hex digits}` and
//! random document ids.

use vstd::prelude::*;

use crate::ids::{uuid_string, uuid_text};
use crate::text::take_chars;

verus! {

/// `uuid::Uuid::new_v4()`, taken as its 128-bit value. It is random, so no
/// contract states its value.
#[verifier::external_body]
fn random_uuid() -> u128 {
    uuid::Uuid::new_v4().as_u128()
}

/// Whether `s` is made of the characters of a time stamp of [`utc_stamp`]
/// or [`utc_stamp_compact`]: ASCII digits, `_`, and the `+` or `-` that
/// chrono puts before a year outside 0 to 9999.
pub open spec fn stamp_text(s: Seq<char>) -> bool {
    forall|i: int|
        0 <= i < s.len() ==> ('0' <= #[trigger] s[i] && s[i] <= '9') || s[i] == '_' || s[i] == '+'
            || s[i] == '-'
}

/// `chrono::Utc::now().format("%Y%m%d_%H%M%S")` as text. It depends on the
/// clock, so its value is not stated; chrono writes every field as decimal
/// digits (a year outside 0 to 9999 with a sign), so it is [`stamp_text`].
#[verifier::external_body]
fn utc_stamp() -> (r: String)
    ensures
        stamp_text(r@),
{
    chrono::Utc::now().format("%Y%m%d_%H%M%S").to_string()
}

/// `chrono::Utc::now().format("%Y%m%d%H%M%S")` as text. It depends on the
/// clock, so its value is not stated; as for [`utc_stamp`], it is
/// [`stamp_text`].
#[verifier::external_body]
fn utc_stamp_compact() -> (r: String)
    ensures
        stamp_text(r@),
{
    chrono::Utc::now().format("%Y%m%d%H%M%S").to_string()
}

/// The track id of a batch: the prefix, the time stamp and the first eight
/// characters of a UUID's text, joined by `_`.
pub open spec fn track_id_of(prefix: Seq<char>, stamp: Seq<char>, uuid: u128) -> Seq<char> {
    prefix + "_"@ + stamp + "_"@ + uuid_string(uuid).take(8)
}

/// The track id made of `prefix`, `stamp` and `uuid`.
pub fn compose_track_id(prefix: &str, stamp: &str, uuid: u128) -> (r: String)
    ensures
        r@ == track_id_of(prefix@, stamp@, uuid),
{
    let u = uuid_text(uuid);
    let short = take_chars(u.as_str(), 8);
    let mut r = prefix.to_owned();
    r.append("_");
    r.append(stamp);
    r.append("_");
    r.append(short.as_str());
    r
}

/// A fresh track id `{prefix}_{UTC time stamp}_{8 hex digits}`; the stamp
/// has no `_` inside when `compact`.
pub fn new_track_id(prefix: &str, compact: bool) -> (r: String)
    ensures
        exists|stamp: Seq<char>, uuid: u128|
            r@ == #[trigger] track_id_of(prefix@, stamp, uuid) && stamp_text(stamp),
{
    let stamp = if compact {
        utc_stamp_compact()
    } else {
        utc_stamp()
    };
    compose_track_id(prefix, stamp.as_str(), random_uuid())
}

/// The track id a request asked for, or a fresh one.
pub fn track_id_or_new(requested: Option<String>, prefix: &str) -> (r: String)
    ensures
        requested is Some ==> r@ == requested->0@,
        requested is None ==> exists|stamp: Seq<char>, uuid: u128|
            r@ == #[trigger] track_id_of(prefix@, stamp, uuid) && stamp_text(stamp),
{
    match requested {
        Some(t) => t,
        None => new_track_id(prefix, false),
    }
}

/// A fresh random document id: a hyphenated UUID text.
pub fn new_document_id() -> (r: String)
    ensures
        exists|uuid: u128| r@ == #[trigger] uuid_string(uuid),
        r@.len() == 36,
{
    uuid_text(random_uuid())
}

} // verus!
