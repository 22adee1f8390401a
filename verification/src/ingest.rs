//! Ingestion decisions: which files a directory scan queues or skips (and
//! why), what a file upload answers, and when a re-uploaded document is
//! reported as a duplicate still in processing.

use vstd::prelude::*;

use crate::error::ApiError;
use crate::text::{chars_of, decimal, decimal_text, owned, trim_text, trimmed};

verus! {

/// The code of `c` with ASCII `A`-`Z` lowered.
pub open spec fn ascii_lower_code(c: char) -> u32 {
    let n = c as u32;
    if 65 <= n && n <= 90 {
        (n + 32) as u32
    } else {
        n
    }
}

/// Whether two texts are equal ignoring ASCII case (`str::eq_ignore_ascii_case`).
pub open spec fn same_ignoring_ascii_case(a: Seq<char>, b: Seq<char>) -> bool {
    a.len() == b.len() && forall|i: int|
        0 <= i < a.len() ==> #[trigger] ascii_lower_code(a[i]) == ascii_lower_code(b[i])
}

fn lower_code(c: char) -> (r: u32)
    ensures
        r == ascii_lower_code(c),
{
    let n = c as u32;
    if 65 <= n && n <= 90 {
        n + 32
    } else {
        n
    }
}

/// Whether `a` and `b` are equal ignoring ASCII case.
pub fn eq_ignore_ascii_case_text(a: &str, b: &str) -> (r: bool)
    ensures
        r == same_ignoring_ascii_case(a@, b@),
{
    let x = chars_of(a);
    let y = chars_of(b);
    if x.len() != y.len() {
        return false;
    }
    let mut i: usize = 0;
    while i < x.len()
        invariant
            i <= x.len(),
            x.len() == y.len(),
            x@ == a@,
            y@ == b@,
            forall|j: int| 0 <= j < i ==> #[trigger] ascii_lower_code(a@[j]) == ascii_lower_code(b@[j]),
        decreases x.len() - i,
    {
        if lower_code(x[i]) != lower_code(y[i]) {
            return false;
        }
        i = i + 1;
    }
    true
}

/// Whether `ext` is one of `extensions`, ignoring ASCII case.
pub open spec fn listed_extension(extensions: Seq<Seq<char>>, ext: Seq<char>) -> bool {
    exists|i: int| 0 <= i < extensions.len() && same_ignoring_ascii_case(#[trigger] extensions[i], ext)
}

fn extension_listed(extensions: &Vec<String>, ext: &str) -> (r: bool)
    ensures
        r == listed_extension(extensions@.map_values(|e: String| e@), ext@),
{
    let ghost views = extensions@.map_values(|e: String| e@);
    let mut i: usize = 0;
    while i < extensions.len()
        invariant
            i <= extensions.len(),
            views == extensions@.map_values(|e: String| e@),
            forall|j: int| 0 <= j < i ==> !same_ignoring_ascii_case(#[trigger] views[j], ext@),
        decreases extensions.len() - i,
    {
        if eq_ignore_ascii_case_text(extensions[i].as_str(), ext) {
            assert(views[i as int] == extensions@[i as int]@);
            return true;
        }
        assert(views[i as int] == extensions@[i as int]@);
        i = i + 1;
    }
    false
}

/// The length in bytes of `c` encoded as UTF-8, as `str::len` reports it.
pub open spec fn byte_len(c: Seq<char>) -> usize {
    vstd::utf8::encode_utf8(c).len() as usize
}

/// Why a scanned file is skipped, in the order the checks are made: an
/// extension filter (when given) that the file's extension is missing from
/// or not on, a read failure (`read` holds its message), a file that is only
/// white space, or one larger than `max_size` bytes. `None` when it is queued.
pub open spec fn scan_skip(
    extensions: Seq<Seq<char>>,
    ext: Option<Seq<char>>,
    read: Result<Seq<char>, Seq<char>>,
    max_size: nat,
) -> Option<Seq<char>> {
    if extensions.len() > 0 && ext is None {
        Some("No extension"@)
    } else if extensions.len() > 0 && !listed_extension(extensions, ext->0) {
        Some("Extension ."@ + ext->0 + " not in filter list"@)
    } else {
        match read {
            Err(e) => Some("Failed to read: "@ + e),
            Ok(c) => if trimmed(c).len() == 0 {
                Some("Empty file"@)
            } else if byte_len(c) > max_size {
                Some("Exceeds max size ("@ + decimal(byte_len(c) as nat) + " > "@ + decimal(max_size) + ")"@)
            } else {
                None
            },
        }
    }
}

/// The views of a read result.
pub open spec fn read_view(read: Result<String, String>) -> Result<Seq<char>, Seq<char>> {
    match read {
        Ok(c) => Ok(c@),
        Err(e) => Err(e@),
    }
}

/// Why a scanned file with extension `ext` (`None` when it has none) and
/// read result `read` is skipped, or `None` when it is queued.
pub fn scan_skip_reason(
    extensions: &Vec<String>,
    ext: Option<&str>,
    read: &Result<String, String>,
    max_size: usize,
) -> (r: Option<String>)
    ensures
        ({
            let e = match ext {
                Some(x) => Some(x@),
                None => None,
            };
            match scan_skip(extensions@.map_values(|s: String| s@), e, read_view(*read), max_size as nat) {
                Some(m) => r is Some && r->0@ == m,
                None => r is None,
            }
        }),
{
    if extensions.len() > 0 {
        match ext {
            None => {
                return Some(owned("No extension"));
            },
            Some(x) => {
                if !extension_listed(extensions, x) {
                    let mut m = owned("Extension .");
                    m.append(x);
                    m.append(" not in filter list");
                    return Some(m);
                }
            },
        }
    }
    match read {
        Err(e) => {
            let mut m = owned("Failed to read: ");
            m.append(e.as_str());
            Some(m)
        },
        Ok(c) => {
            let t = trim_text(c.as_str());
            if chars_of(t.as_str()).len() == 0 {
                return Some(owned("Empty file"));
            }
            let cs = c.as_str();
            let size = cs.len();
            assert(cs@ == c@);
            assert(size == byte_len(c@));
            if size > max_size {
                let mut m = owned("Exceeds max size (");
                m.append(decimal_text(size as u128).as_str());
                m.append(" > ");
                m.append(decimal_text(max_size as u128).as_str());
                m.append(")");
                return Some(m);
            }
            None
        },
    }
}

/// 400 for a scan path that is not a directory.
pub fn not_a_directory(path: &str) -> (e: ApiError)
    ensures
        e is BadRequest && e->BadRequest_0@ == "Path is not a directory: "@ + path@,
{
    let mut m = owned("Path is not a directory: ");
    m.append(path);
    ApiError::BadRequest(m)
}

/// 400 for an upload without file content.
pub fn require_file_content(size: usize) -> (r: Result<(), ApiError>)
    ensures
        size == 0 ==> r is Err && r->Err_0 is BadRequest && r->Err_0->BadRequest_0@
            == "No file provided"@,
        size > 0 ==> r is Ok,
{
    if size == 0 {
        Err(ApiError::BadRequest(owned("No file provided")))
    } else {
        Ok(())
    }
}

/// The document a re-upload answers as a duplicate still in processing: the
/// document already stored for the same content (`existing`) when removing
/// its old data was refused because it is still processing
/// (`old_data_removed` is `Some(false)`). A removal that succeeded or
/// failed lets the upload go on (`None`).
pub fn duplicate_still_processing(existing: Option<String>, old_data_removed: Option<bool>) -> (r:
    Option<String>)
    ensures
        (existing is Some && old_data_removed == Some(false)) ==> r == existing,
        !(existing is Some && old_data_removed == Some(false)) ==> r is None,
{
    match (existing, old_data_removed) {
        (Some(id), Some(false)) => Some(id),
        _ => None,
    }
}

/// Answer of a file upload.
#[derive(Debug, Clone, PartialEq, Eq)]
pub struct FileUploadResponse {
    pub document_id: String,
    pub filename: String,
    pub size: usize,
    pub content_hash: String,
    pub status: String,
    pub chunk_count: usize,
    pub entity_count: usize,
    pub relationship_count: usize,
    pub is_duplicate: bool,
}

/// The answer to a file whose content is already stored under a document
/// that is still being processed.
pub fn duplicate_file_response(document_id: String, filename: String, size: usize, content_hash: String) -> (r:
    FileUploadResponse)
    ensures
        r.document_id@ == document_id@,
        r.filename@ == filename@,
        r.size == size,
        r.content_hash@ == content_hash@,
        r.status@ == "duplicate_processing"@,
        r.chunk_count == 0 && r.entity_count == 0 && r.relationship_count == 0,
        r.is_duplicate,
{
    FileUploadResponse {
        document_id,
        filename,
        size,
        content_hash,
        status: owned("duplicate_processing"),
        chunk_count: 0,
        entity_count: 0,
        relationship_count: 0,
        is_duplicate: true,
    }
}

/// The answer to a stored upload: the document is named by its content
/// hash and carries the status the schema gate gave it.
pub fn uploaded_file_response(filename: String, size: usize, content_hash: String, gate_status: &str) -> (r:
    FileUploadResponse)
    ensures
        r.document_id@ == content_hash@,
        r.filename@ == filename@,
        r.size == size,
        r.content_hash@ == content_hash@,
        r.status@ == gate_status@,
        r.chunk_count == 0 && r.entity_count == 0 && r.relationship_count == 0,
        !r.is_duplicate,
{
    FileUploadResponse {
        document_id: content_hash.clone(),
        filename,
        size,
        content_hash,
        status: owned(gate_status),
        chunk_count: 0,
        entity_count: 0,
        relationship_count: 0,
        is_duplicate: false,
    }
}

} // verus!
