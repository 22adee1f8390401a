//! Raw uploads kept in object storage under
//! `{tenant}/{workspace}/{namespace}/{sha256}/{filename}`: validating a
//! presigned upload request, the caller's storage scope, the listing prefix
//! and reading a listed key back.

use vstd::prelude::*;

use crate::document_store::{split_on, split_text, texts};
use crate::error::ApiError;
use crate::text::{chars_of, decimal, decimal_text, owned};

verus! {

/// Query of a raw document listing.
#[derive(Debug, Clone, PartialEq, Eq, Default)]
pub struct ListRawDocsParams {
    pub namespace: Option<String>,
}

/// Whether `c` is a lowercase hexadecimal digit.
pub open spec fn hex_digit(c: char) -> bool {
    ('0' <= c && c <= '9') || ('a' <= c && c <= 'f')
}

/// Whether `s` is a content hash: exactly 64 lowercase hexadecimal digits.
pub open spec fn content_hash_text(s: Seq<char>) -> bool {
    s.len() == 64 && forall|i: int| 0 <= i < s.len() ==> hex_digit(#[trigger] s[i])
}

fn is_hex_digit(c: char) -> (r: bool)
    ensures
        r == hex_digit(c),
{
    ('0' <= c && c <= '9') || ('a' <= c && c <= 'f')
}

fn is_content_hash(s: &str) -> (r: bool)
    ensures
        r == content_hash_text(s@),
{
    let cs = chars_of(s);
    if cs.len() != 64 {
        return false;
    }
    let mut i: usize = 0;
    while i < cs.len()
        invariant
            i <= cs.len(),
            cs@ == s@,
            forall|j: int| 0 <= j < i ==> hex_digit(#[trigger] s@[j]),
        decreases cs.len() - i,
    {
        if !is_hex_digit(cs[i]) {
            return false;
        }
        i = i + 1;
    }
    true
}

/// The checks of a presigned upload request, in order: the content hash is
/// 64 lowercase hexadecimal digits, the file name and the namespace are not empty, and
/// the declared size is within `max_size` bytes. `None` when all pass.
pub open spec fn presign_error(
    sha256: Seq<char>,
    filename: Seq<char>,
    namespace: Seq<char>,
    size: u64,
    max_size: u64,
) -> Option<Seq<char>> {
    if !content_hash_text(sha256) {
        Some("sha256 must be a lowercase hex string of exactly 64 characters"@)
    } else if filename.len() == 0 {
        Some("filename must not be empty"@)
    } else if namespace.len() == 0 {
        Some("namespace must not be empty"@)
    } else if size > max_size {
        Some(
            "Declared file size "@ + decimal(size as nat)
                + " bytes exceeds the maximum allowed size of "@ + decimal(max_size as nat)
                + " bytes"@,
        )
    } else {
        None
    }
}

/// Validates a presigned upload request (400 with the first failed check).
pub fn validate_presign_request(
    sha256: &str,
    filename: &str,
    namespace: &str,
    size: u64,
    max_size: u64,
) -> (r: Result<(), ApiError>)
    ensures
        match presign_error(sha256@, filename@, namespace@, size, max_size) {
            Some(m) => r is Err && r->Err_0 is BadRequest && r->Err_0->BadRequest_0@ == m,
            None => r is Ok,
        },
{
    if !is_content_hash(sha256) {
        return Err(
            ApiError::BadRequest(
                owned("sha256 must be a lowercase hex string of exactly 64 characters"),
            ),
        );
    }
    if chars_of(filename).len() == 0 {
        return Err(ApiError::BadRequest(owned("filename must not be empty")));
    }
    if chars_of(namespace).len() == 0 {
        return Err(ApiError::BadRequest(owned("namespace must not be empty")));
    }
    if size > max_size {
        let mut m = owned("Declared file size ");
        m.append(decimal_text(size as u128).as_str());
        m.append(" bytes exceeds the maximum allowed size of ");
        m.append(decimal_text(max_size as u128).as_str());
        m.append(" bytes");
        return Err(ApiError::BadRequest(m));
    }
    Ok(())
}

/// A scope given by the caller, or `default`.
pub open spec fn scope_or_default(v: Option<String>) -> Seq<char> {
    match v {
        Some(s) => s@,
        None => "default"@,
    }
}

/// The caller's `(tenant, workspace)` storage scope, `default` for each
/// part the caller did not name.
pub fn storage_scope(tenant: &Option<String>, workspace: &Option<String>) -> (r: (String, String))
    ensures
        r.0@ == scope_or_default(*tenant),
        r.1@ == scope_or_default(*workspace),
{
    let t = match tenant {
        Some(s) => s.clone(),
        None => owned("default"),
    };
    let w = match workspace {
        Some(s) => s.clone(),
        None => owned("default"),
    };
    (t, w)
}

/// The listing prefix of a namespace in the caller's scope; the namespace
/// is required (400 when absent or empty).
pub fn raw_docs_prefix(tenant: &str, workspace: &str, namespace: &Option<String>) -> (r: Result<
    String,
    ApiError,
>)
    ensures
        (namespace is None || namespace->0@.len() == 0) ==> r is Err && r->Err_0 is BadRequest
            && r->Err_0->BadRequest_0@ == "namespace query parameter is required"@,
        (namespace is Some && namespace->0@.len() > 0) ==> r is Ok && r->Ok_0@ == tenant@ + "/"@
            + workspace@ + "/"@ + namespace->0@ + "/"@,
{
    match namespace {
        Some(ns) => {
            if chars_of(ns.as_str()).len() == 0 {
                return Err(ApiError::BadRequest(owned("namespace query parameter is required")));
            }
            let mut p = owned(tenant);
            p.append("/");
            p.append(workspace);
            p.append("/");
            p.append(ns.as_str());
            p.append("/");
            Ok(p)
        },
        None => Err(ApiError::BadRequest(owned("namespace query parameter is required"))),
    }
}

/// What a listed raw object key says: `(sha256, filename, namespace)`.
#[derive(Debug, Clone, PartialEq, Eq)]
pub struct RawDocKey {
    pub sha256: String,
    pub filename: String,
    pub namespace: String,
}

/// Reads a raw object key `{tenant}/{workspace}/{namespace}/{sha256}/{filename}`;
/// a key of fewer than five `/`-separated parts is not a raw document.
pub fn read_raw_doc_key(key: &str) -> (r: Option<RawDocKey>)
    ensures
        split_on(key@, '/').len() < 5 ==> r is None,
        split_on(key@, '/').len() >= 5 ==> r is Some && r->0.sha256@ == split_on(key@, '/')[3]
            && r->0.filename@ == split_on(key@, '/')[4] && r->0.namespace@ == split_on(
            key@,
            '/',
        )[2],
{
    let parts = split_text(key, '/');
    if parts.len() < 5 {
        return None;
    }
    proof {
        assert(texts(parts@)[3] == parts@[3]@);
        assert(texts(parts@)[4] == parts@[4]@);
        assert(texts(parts@)[2] == parts@[2]@);
    }
    Some(
        RawDocKey {
            sha256: parts[3].clone(),
            filename: parts[4].clone(),
            namespace: parts[2].clone(),
        },
    )
}

} // verus!
