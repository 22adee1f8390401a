//! Document ingestion decisions: the schema gate, the metadata stored for an
//! upload, resuming parked documents, deletion guards, and the key layout
//! of a document's records in the key-value store.

use vstd::prelude::*;

use crate::error::ApiError;
use crate::text::{owned, same_text};

verus! {

/// Status of a document whose workspace schema is approved.
pub const STATUS_EXTRACTING: &'static str = "extracting";

/// Status of a document parked until its workspace schema is approved.
pub const STATUS_AWAITING_SCHEMA: &'static str = "awaiting_schema";

/// First page of a listing.
pub fn default_page() -> (r: usize)
    ensures
        r == 1,
{
    1
}

/// Page size of a listing.
pub fn default_page_size() -> (r: usize)
    ensures
        r == 20,
{
    20
}

/// Request body of a text upload.
#[derive(Debug, Clone, PartialEq, Eq)]
pub struct UploadDocumentRequest {
    pub content: String,
    pub title: Option<String>,
    /// Caller metadata, kept as its serialized JSON text.
    pub metadata: Option<String>,
    pub async_processing: bool,
    pub track_id: Option<String>,
    pub enable_gleaning: bool,
    pub max_gleaning: usize,
    pub use_llm_summarization: bool,
}

/// Outcome of the workspace schema gate.
#[derive(Debug, Clone, Copy, PartialEq, Eq, Structural)]
pub enum SchemaGateResult {
    /// No approved schema: the document parks at `awaiting_schema`.
    AwaitingSchema,
    /// Approved schema: the document may advance to `extracting`.
    Approved,
}

/// Whether an optional text is exactly `lit`.
pub open spec fn opt_is(v: Option<Seq<char>>, lit: Seq<char>) -> bool {
    v is Some && v->0 == lit
}

/// The view of an optional string slice.
pub open spec fn opt_view(v: Option<&str>) -> Option<Seq<char>> {
    match v {
        Some(s) => Some(s@),
        None => None,
    }
}

fn opt_text_is(v: Option<&str>, lit: &str) -> (r: bool)
    ensures
        r == opt_is(opt_view(v), lit@),
{
    match v {
        Some(s) => same_text(s, lit),
        None => false,
    }
}

/// The schema gate over a workspace's `graph_schema.status` metadata (when it is a
/// string): open only for exactly `approved`.
pub fn check_workspace_schema_gate(graph_schema_status: Option<&str>) -> (r: SchemaGateResult)
    ensures
        (r == SchemaGateResult::Approved) == opt_is(opt_view(graph_schema_status), "approved"@),
{
    if opt_text_is(graph_schema_status, "approved") {
        SchemaGateResult::Approved
    } else {
        SchemaGateResult::AwaitingSchema
    }
}

/// What looking a workspace up for its schema gate found.
#[derive(Debug, Clone, PartialEq, Eq)]
pub enum GateLookup {
    /// The workspace id is not a UUID.
    InvalidId,
    /// No workspace has that id.
    NotFound,
    /// The lookup failed.
    Failed,
    /// The workspace, with its `graph_schema.status` metadata when a string.
    Found { graph_schema_status: Option<String> },
}

/// The status a freshly landed document takes: `extracting` only when the
/// workspace was found with an approved schema, `awaiting_schema` on every
/// other outcome (parking is the safe default).
pub fn schema_gate_status(lookup: &GateLookup) -> (r: &'static str)
    ensures
        r@ == (if lookup is Found && opt_is(
            match lookup->graph_schema_status {
                Some(s) => Some(s@),
                None => None,
            },
            "approved"@,
        ) {
            STATUS_EXTRACTING@
        } else {
            STATUS_AWAITING_SCHEMA@
        }),
{
    match lookup {
        GateLookup::Found { graph_schema_status } => {
            let status = match graph_schema_status {
                Some(s) => Some(s.as_str()),
                None => None,
            };
            match check_workspace_schema_gate(status) {
                SchemaGateResult::Approved => STATUS_EXTRACTING,
                SchemaGateResult::AwaitingSchema => STATUS_AWAITING_SCHEMA,
            }
        },
        _ => STATUS_AWAITING_SCHEMA,
    }
}

/// The metadata record stored when a document lands (before its schema is checked).
#[derive(Debug, Clone, PartialEq, Eq)]
pub struct UploadedDocMetadata {
    pub id: String,
    /// Always `uploaded`.
    pub status: String,
    pub sha256: String,
    pub raw_doc_key: String,
    pub filename: String,
    pub content_type: String,
    pub uploaded_at: String,
    pub tenant_id: Option<String>,
    pub workspace_id: String,
    /// Equal to `uploaded_at`.
    pub created_at: String,
}

/// The metadata of a landed document: status `uploaded`, the five storage
/// fields as given, and the creation time equal to the upload time.
pub fn build_uploaded_doc_metadata(
    document_id: &str,
    sha256: &str,
    raw_doc_key: &str,
    filename: &str,
    content_type: &str,
    uploaded_at: &str,
    tenant_id: Option<&str>,
    workspace_id: &str,
) -> (m: UploadedDocMetadata)
    ensures
        m.id@ == document_id@,
        m.status@ == "uploaded"@,
        m.sha256@ == sha256@,
        m.raw_doc_key@ == raw_doc_key@,
        m.filename@ == filename@,
        m.content_type@ == content_type@,
        m.uploaded_at@ == uploaded_at@,
        m.created_at@ == uploaded_at@,
        m.workspace_id@ == workspace_id@,
        match tenant_id {
            Some(t) => m.tenant_id is Some && m.tenant_id->0@ == t@,
            None => m.tenant_id is None,
        },
{
    UploadedDocMetadata {
        id: owned(document_id),
        status: owned("uploaded"),
        sha256: owned(sha256),
        raw_doc_key: owned(raw_doc_key),
        filename: owned(filename),
        content_type: owned(content_type),
        uploaded_at: owned(uploaded_at),
        tenant_id: match tenant_id {
            Some(t) => Some(owned(t)),
            None => None,
        },
        workspace_id: owned(workspace_id),
        created_at: owned(uploaded_at),
    }
}

/// What resuming a document does.
#[derive(Debug, Clone, Copy, PartialEq, Eq, Structural)]
pub enum ResumeAction {
    /// `awaiting_schema → extracting`, the only mutating case.
    AdvanceToExtracting,
    /// Already extracting: answer 202, change nothing.
    AlreadyRunning,
    /// Already completed: answer 200, change nothing.
    NoOp,
    /// Any other status: 409.
    Conflict,
}

/// The resume rule for each status.
pub open spec fn resume_rule(status: Seq<char>) -> ResumeAction {
    if status == "awaiting_schema"@ {
        ResumeAction::AdvanceToExtracting
    } else if status == "extracting"@ {
        ResumeAction::AlreadyRunning
    } else if status == "completed"@ {
        ResumeAction::NoOp
    } else {
        ResumeAction::Conflict
    }
}

/// The resume action for a document in `current_status`.
pub fn resume_decision(current_status: &str) -> (r: ResumeAction)
    ensures
        r == resume_rule(current_status@),
{
    if same_text(current_status, "awaiting_schema") {
        ResumeAction::AdvanceToExtracting
    } else if same_text(current_status, "extracting") {
        ResumeAction::AlreadyRunning
    } else if same_text(current_status, "completed") {
        ResumeAction::NoOp
    } else {
        ResumeAction::Conflict
    }
}

/// Whether the document's tenant is the caller's (a document without a
/// tenant belongs to no caller).
pub fn resume_tenant_ok(doc_tenant: Option<&str>, caller_tenant: &str) -> (r: bool)
    ensures
        r == opt_is(opt_view(doc_tenant), caller_tenant@),
{
    opt_text_is(doc_tenant, caller_tenant)
}

/// The message for a document that does not exist for the caller.
pub open spec fn doc_not_found_message(document_id: Seq<char>) -> Seq<char> {
    "Document "@ + document_id + " not found"@
}

fn doc_not_found(document_id: &str) -> (e: ApiError)
    ensures
        e is NotFound && e->NotFound_0@ == doc_not_found_message(document_id@),
{
    let mut m = owned("Document ");
    m.append(document_id);
    m.append(" not found");
    ApiError::NotFound(m)
}

/// Whether a caller scoped to `caller_tenant` / `caller_workspace` may see a
/// document of `doc_tenant` / `doc_workspace` when resuming: each scope the
/// caller names must be the document's.
pub open spec fn resume_visible(
    doc_tenant: Option<Seq<char>>,
    doc_workspace: Option<Seq<char>>,
    caller_tenant: Option<Seq<char>>,
    caller_workspace: Option<Seq<char>>,
) -> bool {
    (caller_tenant is Some ==> opt_is(doc_tenant, caller_tenant->0)) && (caller_workspace is Some
        ==> opt_is(doc_workspace, caller_workspace->0))
}

/// Refuses (404, never revealing existence) a resume of a document outside
/// the caller's tenant or workspace.
pub fn resume_access(
    document_id: &str,
    doc_tenant: Option<&str>,
    doc_workspace: Option<&str>,
    caller_tenant: Option<&str>,
    caller_workspace: Option<&str>,
) -> (r: Result<(), ApiError>)
    ensures
        resume_visible(
            opt_view(doc_tenant),
            opt_view(doc_workspace),
            opt_view(caller_tenant),
            opt_view(caller_workspace),
        ) ==> r is Ok,
        !resume_visible(
            opt_view(doc_tenant),
            opt_view(doc_workspace),
            opt_view(caller_tenant),
            opt_view(caller_workspace),
        ) ==> r is Err && r->Err_0 is NotFound && r->Err_0->NotFound_0@ == doc_not_found_message(
            document_id@,
        ),
{
    match caller_tenant {
        Some(t) => {
            if !opt_text_is(doc_tenant, t) {
                return Err(doc_not_found(document_id));
            }
        },
        None => {},
    }
    match caller_workspace {
        Some(w) => {
            if !opt_text_is(doc_workspace, w) {
                return Err(doc_not_found(document_id));
            }
        },
        None => {},
    }
    Ok(())
}

/// Answer to a resume request.
#[derive(Debug, Clone, PartialEq, Eq)]
pub struct ResumeDocumentResponse {
    pub document_id: String,
    pub status: String,
    pub message: String,
}

/// What a resume request does next.
#[derive(Debug, Clone, PartialEq, Eq)]
pub enum ResumeStep {
    /// Answer now: 202 when `accepted`, else 200.
    Respond { accepted: bool, response: ResumeDocumentResponse },
    /// Attempt the `awaiting_schema → extracting` transition.
    Advance,
}

/// Whether `r` is the response for `document_id` with `status` and `message`.
pub open spec fn responds(
    r: ResumeDocumentResponse,
    document_id: Seq<char>,
    status: Seq<char>,
    message: Seq<char>,
) -> bool {
    r.document_id@ == document_id && r.status@ == status && r.message@ == message
}

fn response(document_id: &str, status: &str, message: &str) -> (r: ResumeDocumentResponse)
    ensures
        responds(r, document_id@, status@, message@),
{
    ResumeDocumentResponse {
        document_id: owned(document_id),
        status: owned(status),
        message: owned(message),
    }
}

/// The next step of a resume request for a document in `current_status`,
/// once the caller's access and the schema gate were checked.
pub fn resume_step(document_id: &str, current_status: &str) -> (r: Result<ResumeStep, ApiError>)
    ensures
        match resume_rule(current_status@) {
            ResumeAction::AdvanceToExtracting => r == Ok::<ResumeStep, ApiError>(
                ResumeStep::Advance,
            ),
            ResumeAction::AlreadyRunning => r is Ok && r->Ok_0 is Respond
                && r->Ok_0->accepted && responds(
                r->Ok_0->response,
                document_id@,
                "extracting"@,
                "Document is already being extracted"@,
            ),
            ResumeAction::NoOp => r is Ok && r->Ok_0 is Respond && !r->Ok_0->accepted && responds(
                r->Ok_0->response,
                document_id@,
                "completed"@,
                "Document already completed"@,
            ),
            ResumeAction::Conflict => r is Err && r->Err_0 is Conflict && r->Err_0->Conflict_0@
                == "Document "@ + document_id@ + " is in status '"@ + current_status@
                + "' and cannot be resumed (409). Only awaiting_schema documents can be resumed."@,
        },
{
    match resume_decision(current_status) {
        ResumeAction::AdvanceToExtracting => Ok(ResumeStep::Advance),
        ResumeAction::AlreadyRunning => Ok(
            ResumeStep::Respond {
                accepted: true,
                response: response(
                    document_id,
                    "extracting",
                    "Document is already being extracted",
                ),
            },
        ),
        ResumeAction::NoOp => Ok(
            ResumeStep::Respond {
                accepted: false,
                response: response(document_id, "completed", "Document already completed"),
            },
        ),
        ResumeAction::Conflict => {
            let mut m = owned("Document ");
            m.append(document_id);
            m.append(" is in status '");
            m.append(current_status);
            m.append(
                "' and cannot be resumed (409). Only awaiting_schema documents can be resumed.",
            );
            Err(ApiError::Conflict(m))
        },
    }
}

/// The answer once the transition was attempted: a lost race means another
/// request advanced the document (202); a won one ran the extraction (200).
pub fn resume_after_transition(document_id: &str, advanced: bool) -> (r: (bool, ResumeDocumentResponse))
    ensures
        !advanced ==> r.0 && responds(
            r.1,
            document_id@,
            "extracting"@,
            "Document is already being extracted (concurrent advance)"@,
        ),
        advanced ==> !r.0 && responds(
            r.1,
            document_id@,
            "completed"@,
            "Document resumed and stub extraction completed"@,
        ),
{
    if !advanced {
        (
            true,
            response(
                document_id,
                "extracting",
                "Document is already being extracted (concurrent advance)",
            ),
        )
    } else {
        (false, response(document_id, "completed", "Document resumed and stub extraction completed"))
    }
}

/// Refuses (422) a resume while the workspace schema gate is closed.
pub fn require_open_gate(gate_status: &str, single_document: bool) -> (r: Result<(), ApiError>)
    ensures
        gate_status@ == STATUS_EXTRACTING@ ==> r is Ok,
        gate_status@ != STATUS_EXTRACTING@ ==> r is Err && r->Err_0 is ValidationError
            && r->Err_0->ValidationError_0@ == (if single_document {
            "Workspace schema is not approved — cannot resume document"@
        } else {
            "Workspace schema is not approved — cannot resume documents"@
        }),
{
    if same_text(gate_status, STATUS_EXTRACTING) {
        Ok(())
    } else if single_document {
        Err(
            ApiError::ValidationError(
                owned("Workspace schema is not approved — cannot resume document"),
            ),
        )
    } else {
        Err(
            ApiError::ValidationError(
                owned("Workspace schema is not approved — cannot resume documents"),
            ),
        )
    }
}

/// Answer to a resume-all request.
#[derive(Debug, Clone, Copy, PartialEq, Eq)]
pub struct ResumeAllResponse {
    /// Documents moved from `awaiting_schema` and extracted.
    pub released: usize,
    /// Documents of the workspace left as they were.
    pub skipped: usize,
}

/// How resume-all treats one stored document.
#[derive(Debug, Clone, Copy, PartialEq, Eq, Structural)]
pub enum ResumeAllDecision {
    /// Not the workspace's (or another tenant's): not touched, not counted.
    OutOfScope,
    /// The workspace's but not resumable: counted as skipped.
    Skip,
    /// The workspace's and `awaiting_schema`: attempt the transition.
    Advance,
}

/// The text of an optional value, or `default`.
pub open spec fn or_default(v: Option<Seq<char>>, default: Seq<char>) -> Seq<char> {
    match v {
        Some(s) => s,
        None => default,
    }
}

/// The resume-all rule: a document is in scope when it belongs to the
/// workspace and, when the caller names a tenant, it names no other tenant;
/// in scope, only an `awaiting_schema` document with an id advances.
pub open spec fn resume_all_rule(
    doc_workspace: Option<Seq<char>>,
    doc_tenant: Option<Seq<char>>,
    doc_status: Option<Seq<char>>,
    doc_id: Option<Seq<char>>,
    workspace_id: Seq<char>,
    caller_tenant: Option<Seq<char>>,
) -> ResumeAllDecision {
    let tenant = or_default(caller_tenant, ""@);
    let dt = or_default(doc_tenant, ""@);
    if or_default(doc_workspace, ""@) != workspace_id {
        ResumeAllDecision::OutOfScope
    } else if tenant.len() > 0 && dt != tenant && dt.len() > 0 {
        ResumeAllDecision::OutOfScope
    } else if or_default(doc_status, "unknown"@) != "awaiting_schema"@ {
        ResumeAllDecision::Skip
    } else if or_default(doc_id, ""@).len() == 0 {
        ResumeAllDecision::Skip
    } else {
        ResumeAllDecision::Advance
    }
}

fn text_or<'a>(v: Option<&'a str>, default: &'a str) -> (r: &'a str)
    ensures
        r@ == or_default(opt_view(v), default@),
{
    match v {
        Some(s) => s,
        None => default,
    }
}

/// How resume-all treats a stored document of `doc_workspace` /
/// `doc_tenant` in `doc_status`, for `workspace_id` and the caller's tenant.
pub fn resume_all_decision(
    doc_workspace: Option<&str>,
    doc_tenant: Option<&str>,
    doc_status: Option<&str>,
    doc_id: Option<&str>,
    workspace_id: &str,
    caller_tenant: Option<&str>,
) -> (r: ResumeAllDecision)
    ensures
        r == resume_all_rule(
            opt_view(doc_workspace),
            opt_view(doc_tenant),
            opt_view(doc_status),
            opt_view(doc_id),
            workspace_id@,
            opt_view(caller_tenant),
        ),
{
    proof {
        reveal_strlit("");
    }
    let ws = text_or(doc_workspace, "");
    if !same_text(ws, workspace_id) {
        return ResumeAllDecision::OutOfScope;
    }
    let tenant = text_or(caller_tenant, "");
    let dt = text_or(doc_tenant, "");
    assert(tenant@.len() > 0 <==> tenant@ != ""@) by {
        if tenant@.len() == 0 {
            assert(tenant@ =~= ""@);
        }
    }
    assert(dt@.len() > 0 <==> dt@ != ""@) by {
        if dt@.len() == 0 {
            assert(dt@ =~= ""@);
        }
    }
    if !same_text(tenant, "") && !same_text(dt, tenant) && !same_text(dt, "") {
        return ResumeAllDecision::OutOfScope;
    }
    if !same_text(text_or(doc_status, "unknown"), "awaiting_schema") {
        return ResumeAllDecision::Skip;
    }
    let id = text_or(doc_id, "");
    assert(id@.len() == 0 <==> id@ == ""@) by {
        if id@.len() == 0 {
            assert(id@ =~= ""@);
        }
    }
    if same_text(id, "") {
        return ResumeAllDecision::Skip;
    }
    ResumeAllDecision::Advance
}

/// What happened to one stored document during resume-all.
#[derive(Debug, Clone, Copy, PartialEq, Eq, Structural)]
pub enum ResumeAllOutcome {
    OutOfScope,
    Skipped,
    Released,
}

/// What one stored document's resume-all turn comes to: out of scope stays
/// uncounted; a skipped one is skipped; one to advance is released when its
/// `awaiting_schema` → `extracting` transition went through (`advanced`)
/// and its extraction ran (`extracted`), else skipped.
pub open spec fn resume_all_outcome_rule(
    d: ResumeAllDecision,
    advanced: bool,
    extracted: bool,
) -> ResumeAllOutcome {
    match d {
        ResumeAllDecision::OutOfScope => ResumeAllOutcome::OutOfScope,
        ResumeAllDecision::Skip => ResumeAllOutcome::Skipped,
        ResumeAllDecision::Advance => if advanced && extracted {
            ResumeAllOutcome::Released
        } else {
            ResumeAllOutcome::Skipped
        },
    }
}

/// The outcome of one stored document's resume-all turn.
pub fn resume_all_outcome(d: ResumeAllDecision, advanced: bool, extracted: bool) -> (o:
    ResumeAllOutcome)
    ensures
        o == resume_all_outcome_rule(d, advanced, extracted),
{
    match d {
        ResumeAllDecision::OutOfScope => ResumeAllOutcome::OutOfScope,
        ResumeAllDecision::Skip => ResumeAllOutcome::Skipped,
        ResumeAllDecision::Advance => if advanced && extracted {
            ResumeAllOutcome::Released
        } else {
            ResumeAllOutcome::Skipped
        },
    }
}

/// How many outcomes are `o`.
pub open spec fn count_outcome(s: Seq<ResumeAllOutcome>, o: ResumeAllOutcome) -> nat
    decreases s.len(),
{
    if s.len() == 0 {
        0
    } else {
        count_outcome(s.drop_last(), o) + if s.last() == o {
            1nat
        } else {
            0nat
        }
    }
}

/// The resume-all answer: released and skipped documents counted, those
/// out of scope not counted at all.
pub fn tally_resume_all(outcomes: &Vec<ResumeAllOutcome>) -> (r: ResumeAllResponse)
    ensures
        r.released == count_outcome(outcomes@, ResumeAllOutcome::Released),
        r.skipped == count_outcome(outcomes@, ResumeAllOutcome::Skipped),
{
    let mut released: usize = 0;
    let mut skipped: usize = 0;
    let mut i: usize = 0;
    while i < outcomes.len()
        invariant
            i <= outcomes.len(),
            released == count_outcome(outcomes@.take(i as int), ResumeAllOutcome::Released),
            skipped == count_outcome(outcomes@.take(i as int), ResumeAllOutcome::Skipped),
            released + skipped <= i,
        decreases outcomes.len() - i,
    {
        assert(outcomes@.take(i + 1).drop_last() == outcomes@.take(i as int));
        match outcomes[i] {
            ResumeAllOutcome::Released => {
                released = released + 1;
            },
            ResumeAllOutcome::Skipped => {
                skipped = skipped + 1;
            },
            ResumeAllOutcome::OutOfScope => {},
        }
        i = i + 1;
    }
    assert(outcomes@.take(outcomes.len() as int) == outcomes@);
    ResumeAllResponse { released, skipped }
}

/// Law: resume-all advances a document only when it is the workspace's, no
/// other tenant's, and parked at `awaiting_schema`.
pub proof fn law_resume_all_stays_in_scope(
    doc_workspace: Option<Seq<char>>,
    doc_tenant: Option<Seq<char>>,
    doc_status: Option<Seq<char>>,
    doc_id: Option<Seq<char>>,
    workspace_id: Seq<char>,
    caller_tenant: Option<Seq<char>>,
)
    requires
        resume_all_rule(doc_workspace, doc_tenant, doc_status, doc_id, workspace_id, caller_tenant)
            == ResumeAllDecision::Advance,
        workspace_id.len() > 0,
    ensures
        opt_is(doc_workspace, workspace_id),
        opt_is(doc_status, "awaiting_schema"@),
        caller_tenant is Some && caller_tenant->0.len() > 0 && doc_tenant is Some
            && doc_tenant->0.len() > 0 ==> doc_tenant->0 == caller_tenant->0,
{
    reveal_strlit("unknown");
    reveal_strlit("awaiting_schema");
    reveal_strlit("");
    assert("unknown"@ != "awaiting_schema"@) by {
        assert("unknown"@[0] != "awaiting_schema"@[0]);
    }
}

/// Law: resuming all a second time does nothing more. A document the first
/// run advanced stands at `completed` afterwards (or at `extracting`, where
/// another caller advanced it first), and resume-all never advances a
/// document in either status, whatever its scope.
pub proof fn law_resume_all_second_run_idle(
    doc_workspace: Option<Seq<char>>,
    doc_tenant: Option<Seq<char>>,
    status: Seq<char>,
    doc_id: Option<Seq<char>>,
    workspace_id: Seq<char>,
    caller_tenant: Option<Seq<char>>,
)
    requires
        status == "completed"@ || status == "extracting"@,
    ensures
        resume_all_rule(doc_workspace, doc_tenant, Some(status), doc_id, workspace_id, caller_tenant)
            != ResumeAllDecision::Advance,
{
    reveal_strlit("completed");
    reveal_strlit("extracting");
    reveal_strlit("awaiting_schema");
    assert("completed"@[0] != "awaiting_schema"@[0]);
    assert("extracting"@[0] != "awaiting_schema"@[0]);
}

/// A stored document as resume-all reads it: its workspace, tenant, status
/// and id fields.
pub open spec fn resume_all_doc_rule(
    doc: (Option<Seq<char>>, Option<Seq<char>>, Option<Seq<char>>, Option<Seq<char>>),
    workspace_id: Seq<char>,
    caller_tenant: Option<Seq<char>>,
) -> ResumeAllDecision {
    resume_all_rule(doc.0, doc.1, doc.2, doc.3, workspace_id, caller_tenant)
}

proof fn lemma_no_released(outcomes: Seq<ResumeAllOutcome>)
    requires
        forall|i: int| 0 <= i < outcomes.len() ==> #[trigger] outcomes[i] != ResumeAllOutcome::Released,
    ensures
        count_outcome(outcomes, ResumeAllOutcome::Released) == 0,
    decreases outcomes.len(),
{
    if outcomes.len() > 0 {
        let d = outcomes.drop_last();
        assert forall|i: int| 0 <= i < d.len() implies #[trigger] d[i] != ResumeAllOutcome::Released by {
            assert(d[i] == outcomes[i]);
        }
        lemma_no_released(d);
        assert(outcomes.last() == outcomes[outcomes.len() - 1]);
    }
}

/// Law: resume-all is idempotent over a whole workspace. Take the stored
/// documents `before` a run and `after` it: the run changed only the status
/// of the documents it decided to advance, each of which now stands at
/// `completed` (or `extracting`). A second run then decides to advance no
/// document, so it attempts no transition and changes no status; and
/// whatever its turns report, it releases none.
pub proof fn law_resume_all_idempotent(
    before: Seq<(Option<Seq<char>>, Option<Seq<char>>, Option<Seq<char>>, Option<Seq<char>>)>,
    after: Seq<(Option<Seq<char>>, Option<Seq<char>>, Option<Seq<char>>, Option<Seq<char>>)>,
    workspace_id: Seq<char>,
    caller_tenant: Option<Seq<char>>,
    advanced: Seq<bool>,
    extracted: Seq<bool>,
    outcomes: Seq<ResumeAllOutcome>,
)
    requires
        after.len() == before.len(),
        advanced.len() == after.len(),
        extracted.len() == after.len(),
        outcomes.len() == after.len(),
        forall|i: int|
            0 <= i < before.len() ==> (#[trigger] after[i]).0 == before[i].0 && after[i].1
                == before[i].1 && after[i].3 == before[i].3,
        forall|i: int|
            0 <= i < before.len() ==> (resume_all_doc_rule(#[trigger] before[i], workspace_id, caller_tenant)
                == ResumeAllDecision::Advance ==> after[i].2 == Some("completed"@) || after[i].2
                == Some("extracting"@)),
        forall|i: int|
            0 <= i < before.len() ==> (resume_all_doc_rule(#[trigger] before[i], workspace_id, caller_tenant)
                != ResumeAllDecision::Advance ==> after[i].2 == before[i].2),
        forall|i: int|
            0 <= i < after.len() ==> #[trigger] outcomes[i] == resume_all_outcome_rule(
                resume_all_doc_rule(after[i], workspace_id, caller_tenant),
                advanced[i],
                extracted[i],
            ),
    ensures
        forall|i: int|
            0 <= i < after.len() ==> resume_all_doc_rule(#[trigger] after[i], workspace_id, caller_tenant)
                != ResumeAllDecision::Advance,
        count_outcome(outcomes, ResumeAllOutcome::Released) == 0,
{
    assert forall|i: int| 0 <= i < after.len() implies resume_all_doc_rule(
        #[trigger] after[i],
        workspace_id,
        caller_tenant,
    ) != ResumeAllDecision::Advance by {
        let b = before[i];
        let a = after[i];
        if resume_all_doc_rule(b, workspace_id, caller_tenant) == ResumeAllDecision::Advance {
            law_resume_all_second_run_idle(a.0, a.1, a.2->0, a.3, workspace_id, caller_tenant);
        } else {
            assert(a == b);
        }
    }
    assert forall|i: int| 0 <= i < outcomes.len() implies #[trigger] outcomes[i]
        != ResumeAllOutcome::Released by {
        assert(resume_all_doc_rule(after[i], workspace_id, caller_tenant) != ResumeAllDecision::Advance);
    }
    lemma_no_released(outcomes);
}

} // verus!
