//! Tenants and workspaces: plans, ownership checks, inherited model
//! settings, listing windows, document statistics and the per-document
//! choices of a bulk re-processing run.

use vstd::prelude::*;

use crate::documents::{opt_is, opt_view};
use crate::error::ApiError;
use crate::ids::{parse_uuid, uuid_value};
use crate::text::{owned, same_text};

verus! {

/// Subscription plan of a tenant.
#[derive(Debug, Clone, Copy, PartialEq, Eq, Structural)]
pub enum TenantPlan {
    Free,
    Basic,
    Pro,
    Enterprise,
}

/// The plan a tenant is created with: `basic`, `pro` or `enterprise` as
/// named (exact words), anything else (or nothing) the free plan.
pub open spec fn plan_named(plan: Option<Seq<char>>) -> TenantPlan {
    if opt_is(plan, "basic"@) {
        TenantPlan::Basic
    } else if opt_is(plan, "pro"@) {
        TenantPlan::Pro
    } else if opt_is(plan, "enterprise"@) {
        TenantPlan::Enterprise
    } else {
        TenantPlan::Free
    }
}

/// The plan a tenant is created with.
pub fn parse_plan(plan: Option<&str>) -> (r: TenantPlan)
    ensures
        r == plan_named(opt_view(plan)),
{
    match plan {
        Some(p) => {
            if same_text(p, "basic") {
                TenantPlan::Basic
            } else if same_text(p, "pro") {
                TenantPlan::Pro
            } else if same_text(p, "enterprise") {
                TenantPlan::Enterprise
            } else {
                TenantPlan::Free
            }
        },
        None => TenantPlan::Free,
    }
}

/// The lowercase name of a plan.
pub open spec fn plan_word(p: TenantPlan) -> Seq<char> {
    match p {
        TenantPlan::Free => "free"@,
        TenantPlan::Basic => "basic"@,
        TenantPlan::Pro => "pro"@,
        TenantPlan::Enterprise => "enterprise"@,
    }
}

impl TenantPlan {
    /// The lowercase name of the plan.
    pub fn as_str(&self) -> (r: &'static str)
        ensures
            r@ == plan_word(*self),
    {
        match self {
            TenantPlan::Free => "free",
            TenantPlan::Basic => "basic",
            TenantPlan::Pro => "pro",
            TenantPlan::Enterprise => "enterprise",
        }
    }
}

/// Law: a plan's name creates that plan.
pub proof fn law_plan_name_round_trip(p: TenantPlan)
    ensures
        plan_named(Some(plan_word(p))) == p,
{
    reveal_strlit("free");
    reveal_strlit("basic");
    reveal_strlit("pro");
    reveal_strlit("enterprise");
    assert("free"@[0] != "basic"@[0] && "free"@[0] != "pro"@[0] && "free"@[0] != "enterprise"@[0]);
    assert("basic"@[0] != "pro"@[0] && "basic"@[0] != "enterprise"@[0]);
    assert("pro"@[0] != "enterprise"@[0]);
}

/// Refuses (403) a tenant creation that asks for an explicit id other than
/// the caller's own tenant id.
pub fn check_requested_tenant_id(requested: Option<u128>, caller: Option<u128>) -> (r: Result<
    (),
    ApiError,
>)
    ensures
        (requested is None || (caller is Some && caller == requested)) ==> r is Ok,
        !(requested is None || (caller is Some && caller == requested)) ==> r == Err::<
            (),
            ApiError,
        >(ApiError::Forbidden),
{
    match requested {
        None => Ok(()),
        Some(id) => match caller {
            Some(c) => {
                if c == id {
                    Ok(())
                } else {
                    Err(ApiError::Forbidden)
                }
            },
            None => Err(ApiError::Forbidden),
        },
    }
}

/// The full id of a model: `provider/model`.
pub fn full_model_id(provider: &str, model: &str) -> (r: String)
    ensures
        r@ == provider@ + "/"@ + model@,
{
    let mut r = owned(provider);
    r.append("/");
    r.append(model);
    r
}

/// Paging of tenant and workspace listings.
#[derive(Debug, Clone, Copy, PartialEq, Eq)]
pub struct PaginationParams {
    pub offset: usize,
    pub limit: usize,
}

impl Default for PaginationParams {
    /// No offset, 20 per page.
    fn default() -> (p: Self)
        ensures
            p.offset == 0 && p.limit == 20,
    {
        PaginationParams { offset: 0, limit: 20 }
    }
}

/// Default page length of tenant and workspace listings.
pub fn workspaces_default_limit() -> (r: usize)
    ensures
        r == 20,
{
    20
}

/// Largest page of tenant and workspace listings.
pub const MAX_LIST_LIMIT: usize = 100;

/// The page length actually used: at most 100.
pub fn listing_limit(limit: usize) -> (r: usize)
    ensures
        r == if limit < MAX_LIST_LIMIT {
            limit
        } else {
            MAX_LIST_LIMIT
        },
{
    if limit < MAX_LIST_LIMIT {
        limit
    } else {
        MAX_LIST_LIMIT
    }
}

/// The window of a listing: `items` from `offset`, at most `limit` of them.
pub fn page_window<T>(items: Vec<T>, offset: usize, limit: usize) -> (r: Vec<T>)
    ensures
        r@ == (if offset < items@.len() {
            items@.skip(offset as int)
        } else {
            Seq::<T>::empty()
        }).take(
            if offset < items@.len() && limit > items@.len() - offset {
                (items@.len() - offset) as int
            } else if offset < items@.len() {
                limit as int
            } else {
                0
            },
        ),
{
    let ghost all = items@;
    let mut items = items;
    if offset >= items.len() {
        return Vec::new();
    }
    let mut rest = items.split_off(offset);
    if limit < rest.len() {
        rest.truncate(limit);
    }
    proof {
        assert(all.skip(offset as int) == all.subrange(offset as int, all.len() as int));
    }
    rest
}

/// Parameters of a metrics history query.
#[derive(Debug, Clone, Copy, PartialEq, Eq)]
pub struct MetricsHistoryParams {
    pub limit: Option<usize>,
    pub offset: Option<usize>,
}

/// Largest page of a metrics history.
pub const MAX_METRICS_LIMIT: usize = 1000;

/// The `(limit, offset)` of a metrics history query: 100 snapshots unless
/// given, at most 1000, from the start unless an offset is given.
pub fn metrics_history_window(p: &MetricsHistoryParams) -> (r: (usize, usize))
    ensures
        r.0 == (match p.limit {
            Some(l) => if l < MAX_METRICS_LIMIT {
                l
            } else {
                MAX_METRICS_LIMIT
            },
            None => 100,
        }),
        r.1 == (match p.offset {
            Some(o) => o,
            None => 0,
        }),
{
    let l = match p.limit {
        Some(l) => l,
        None => 100,
    };
    let limit = if l < MAX_METRICS_LIMIT {
        l
    } else {
        MAX_METRICS_LIMIT
    };
    let offset = match p.offset {
        Some(o) => o,
        None => 0,
    };
    (limit, offset)
}

/// The model settings of a new workspace.
#[derive(Debug, Clone, PartialEq, Eq)]
pub struct WorkspaceModels {
    pub llm_model: String,
    pub llm_provider: String,
    pub embedding_model: String,
    pub embedding_provider: String,
    pub embedding_dimension: usize,
}

/// A given setting, or the inherited one.
pub open spec fn given_or(v: Option<String>, inherited: String) -> String {
    match v {
        Some(x) => x,
        None => inherited,
    }
}

/// The model settings of a new workspace: each one given in the request,
/// else the tenant's default.
pub fn inherit_workspace_models(
    llm_model: Option<String>,
    llm_provider: Option<String>,
    embedding_model: Option<String>,
    embedding_provider: Option<String>,
    embedding_dimension: Option<usize>,
    tenant_defaults: WorkspaceModels,
) -> (r: WorkspaceModels)
    ensures
        r.llm_model == given_or(llm_model, tenant_defaults.llm_model),
        r.llm_provider == given_or(llm_provider, tenant_defaults.llm_provider),
        r.embedding_model == given_or(embedding_model, tenant_defaults.embedding_model),
        r.embedding_provider == given_or(embedding_provider, tenant_defaults.embedding_provider),
        r.embedding_dimension == (match embedding_dimension {
            Some(d) => d,
            None => tenant_defaults.embedding_dimension,
        }),
{
    let WorkspaceModels {
        llm_model: d_llm_model,
        llm_provider: d_llm_provider,
        embedding_model: d_embedding_model,
        embedding_provider: d_embedding_provider,
        embedding_dimension: d_embedding_dimension,
    } = tenant_defaults;
    WorkspaceModels {
        llm_model: match llm_model {
            Some(x) => x,
            None => d_llm_model,
        },
        llm_provider: match llm_provider {
            Some(x) => x,
            None => d_llm_provider,
        },
        embedding_model: match embedding_model {
            Some(x) => x,
            None => d_embedding_model,
        },
        embedding_provider: match embedding_provider {
            Some(x) => x,
            None => d_embedding_provider,
        },
        embedding_dimension: match embedding_dimension {
            Some(d) => d,
            None => d_embedding_dimension,
        },
    }
}

/// 404 for a workspace that does not exist or is another tenant's.
pub fn workspace_not_found(workspace_id: &str) -> (e: ApiError)
    ensures
        e is NotFound && e->NotFound_0@ == "Workspace "@ + workspace_id@ + " not found"@,
{
    let mut m = owned("Workspace ");
    m.append(workspace_id);
    m.append(" not found");
    ApiError::NotFound(m)
}

/// Refuses (404, never revealing existence) access to a workspace of
/// `workspace_tenant` by a caller of another tenant; a caller naming no
/// tenant is not restricted.
pub fn check_workspace_owner(workspace_id: &str, workspace_tenant: &str, caller_tenant: Option<&str>) -> (r:
    Result<(), ApiError>)
    ensures
        (caller_tenant is None || caller_tenant->0@ == workspace_tenant@) ==> r is Ok,
        !(caller_tenant is None || caller_tenant->0@ == workspace_tenant@) ==> r is Err
            && r->Err_0 is NotFound && r->Err_0->NotFound_0@ == "Workspace "@ + workspace_id@
            + " not found"@,
{
    match caller_tenant {
        Some(t) => {
            if same_text(workspace_tenant, t) {
                Ok(())
            } else {
                Err(workspace_not_found(workspace_id))
            }
        },
        None => Ok(()),
    }
}

/// What the statistics of a workspace read from one document's metadata.
#[derive(Debug, Clone, PartialEq, Eq)]
pub struct DocStatRecord {
    /// The document's `workspace_id` field, when a string.
    pub workspace_id: Option<String>,
    /// The document's `file_size_bytes` field, when a number.
    pub file_size_bytes: Option<u64>,
}

/// Whether a document belongs to the workspace: its workspace id reads as
/// the same UUID.
pub open spec fn in_workspace(d: DocStatRecord, workspace_id: u128) -> bool {
    d.workspace_id is Some && uuid_value(d.workspace_id->0@) == Some(workspace_id)
}

/// Documents of the workspace among `docs`.
pub open spec fn workspace_doc_count(docs: Seq<DocStatRecord>, workspace_id: u128) -> nat
    decreases docs.len(),
{
    if docs.len() == 0 {
        0
    } else {
        workspace_doc_count(docs.drop_last(), workspace_id) + if in_workspace(
            docs.last(),
            workspace_id,
        ) {
            1nat
        } else {
            0nat
        }
    }
}

/// Total file size of the workspace's documents among `docs`.
pub open spec fn workspace_bytes(docs: Seq<DocStatRecord>, workspace_id: u128) -> nat
    decreases docs.len(),
{
    if docs.len() == 0 {
        0
    } else {
        workspace_bytes(docs.drop_last(), workspace_id) + if in_workspace(
            docs.last(),
            workspace_id,
        ) && docs.last().file_size_bytes is Some {
            docs.last().file_size_bytes->0 as nat
        } else {
            0nat
        }
    }
}

proof fn lemma_doc_count_bounded(docs: Seq<DocStatRecord>, workspace_id: u128)
    ensures
        workspace_doc_count(docs, workspace_id) <= docs.len(),
    decreases docs.len(),
{
    if docs.len() > 0 {
        lemma_doc_count_bounded(docs.drop_last(), workspace_id);
    }
}

proof fn lemma_bytes_monotone(docs: Seq<DocStatRecord>, workspace_id: u128, i: int)
    requires
        0 <= i <= docs.len(),
    ensures
        workspace_bytes(docs.take(i), workspace_id) <= workspace_bytes(docs, workspace_id),
    decreases docs.len(),
{
    if i < docs.len() {
        assert(docs.drop_last().take(i) == docs.take(i));
        lemma_bytes_monotone(docs.drop_last(), workspace_id, i);
    } else {
        assert(docs.take(i) == docs);
    }
}

/// The workspace's document count and total file size from the documents'
/// metadata; the total must fit in a `u64`.
pub fn workspace_document_stats(docs: &Vec<DocStatRecord>, workspace_id: u128) -> (r: (usize, u64))
    requires
        workspace_bytes(docs@, workspace_id) <= u64::MAX,
    ensures
        r.0 == workspace_doc_count(docs@, workspace_id),
        r.1 == workspace_bytes(docs@, workspace_id),
{
    let mut count: usize = 0;
    let mut bytes: u64 = 0;
    let mut i: usize = 0;
    while i < docs.len()
        invariant
            i <= docs.len(),
            workspace_bytes(docs@, workspace_id) <= u64::MAX,
            count == workspace_doc_count(docs@.take(i as int), workspace_id),
            bytes == workspace_bytes(docs@.take(i as int), workspace_id),
        decreases docs.len() - i,
    {
        proof {
            assert(docs@.take(i + 1).drop_last() == docs@.take(i as int));
            lemma_doc_count_bounded(docs@.take(i as int), workspace_id);
            lemma_bytes_monotone(docs@, workspace_id, i + 1);
        }
        let d = &docs[i];
        let belongs = match &d.workspace_id {
            Some(w) => match parse_uuid(w.as_str()) {
                Some(u) => u == workspace_id,
                None => false,
            },
            None => false,
        };
        if belongs {
            count = count + 1;
            match d.file_size_bytes {
                Some(b) => {
                    bytes = bytes + b;
                },
                None => {},
            }
        }
        i = i + 1;
    }
    assert(docs@.take(docs.len() as int) == docs@);
    (count, bytes)
}

/// The workspace's document count and total file size, or `None` when the
/// total does not fit in a `u64`.
pub fn workspace_document_stats_checked(docs: &Vec<DocStatRecord>, workspace_id: u128) -> (r: Option<
    (usize, u64),
>)
    ensures
        workspace_bytes(docs@, workspace_id) <= u64::MAX ==> r == Some(
            (
                workspace_doc_count(docs@, workspace_id) as usize,
                workspace_bytes(docs@, workspace_id) as u64,
            ),
        ),
        workspace_bytes(docs@, workspace_id) > u64::MAX ==> r is None,
{
    let mut count: usize = 0;
    let mut bytes: u64 = 0;
    let mut i: usize = 0;
    while i < docs.len()
        invariant
            i <= docs.len(),
            count == workspace_doc_count(docs@.take(i as int), workspace_id),
            bytes == workspace_bytes(docs@.take(i as int), workspace_id),
        decreases docs.len() - i,
    {
        proof {
            assert(docs@.take(i + 1).drop_last() == docs@.take(i as int));
            lemma_doc_count_bounded(docs@.take(i as int), workspace_id);
            lemma_bytes_monotone(docs@, workspace_id, i + 1);
        }
        let d = &docs[i];
        let belongs = match &d.workspace_id {
            Some(w) => match parse_uuid(w.as_str()) {
                Some(u) => u == workspace_id,
                None => false,
            },
            None => false,
        };
        if belongs {
            count = count + 1;
            match d.file_size_bytes {
                Some(b) => {
                    match bytes.checked_add(b) {
                        Some(t) => {
                            bytes = t;
                        },
                        None => {
                            return None;
                        },
                    }
                },
                None => {},
            }
        }
        i = i + 1;
    }
    assert(docs@.take(docs.len() as int) == docs@);
    Some((count, bytes))
}

/// What a bulk re-processing run does with one stored document.
#[derive(Debug, Clone, Copy, PartialEq, Eq, Structural)]
pub enum ReprocessDecision {
    /// Another workspace's: not counted as found.
    WrongWorkspace,
    /// Completed and completed documents were not asked for.
    CompletedExcluded,
    /// Being processed now.
    AlreadyProcessing,
    /// No document id.
    NoDocId,
    /// Queue it (once its content is found).
    Queue,
}

/// The re-processing rule: a document is the workspace's when its
/// workspace id (`default` when absent) is the workspace's or `default`;
/// then completed ones are skipped unless asked for, running ones always,
/// and ones without an id.
pub open spec fn reprocess_rule(
    doc_workspace: Option<Seq<char>>,
    status: Option<Seq<char>>,
    has_id: bool,
    workspace_id: Seq<char>,
    include_completed: bool,
) -> ReprocessDecision {
    let ws = match doc_workspace {
        Some(w) => w,
        None => "default"@,
    };
    if ws != workspace_id && ws != "default"@ {
        ReprocessDecision::WrongWorkspace
    } else if !include_completed && opt_is(status, "completed"@) {
        ReprocessDecision::CompletedExcluded
    } else if opt_is(status, "processing"@) {
        ReprocessDecision::AlreadyProcessing
    } else if !has_id {
        ReprocessDecision::NoDocId
    } else {
        ReprocessDecision::Queue
    }
}

/// What a bulk re-processing run does with a stored document.
pub fn reprocess_decision(
    doc_workspace: Option<&str>,
    status: Option<&str>,
    has_id: bool,
    workspace_id: &str,
    include_completed: bool,
) -> (r: ReprocessDecision)
    ensures
        r == reprocess_rule(
            opt_view(doc_workspace),
            opt_view(status),
            has_id,
            workspace_id@,
            include_completed,
        ),
        status is Some && status->0@ == "processing"@ ==> r != ReprocessDecision::Queue,
{
    let ws = match doc_workspace {
        Some(w) => w,
        None => "default",
    };
    if !same_text(ws, workspace_id) && !same_text(ws, "default") {
        return ReprocessDecision::WrongWorkspace;
    }
    let completed = match status {
        Some(s) => same_text(s, "completed"),
        None => false,
    };
    let processing = match status {
        Some(s) => same_text(s, "processing"),
        None => false,
    };
    if !include_completed && completed {
        ReprocessDecision::CompletedExcluded
    } else if processing {
        ReprocessDecision::AlreadyProcessing
    } else if !has_id {
        ReprocessDecision::NoDocId
    } else {
        ReprocessDecision::Queue
    }
}

/// Law: a bulk re-processing run never queues a document that is being
/// processed, whatever `include_completed` says, nor a completed one unless
/// completed ones were asked for. It queues a document exactly when it is
/// the workspace's (its workspace, `default` when absent, is the workspace
/// or `default`), has an id, is not processing, and is not completed unless
/// asked for; another workspace's document is never counted.
pub proof fn law_reprocess_queues_only_idle_documents(
    doc_workspace: Option<Seq<char>>,
    status: Option<Seq<char>>,
    has_id: bool,
    workspace_id: Seq<char>,
    include_completed: bool,
)
    ensures
        status == Some("processing"@) ==> reprocess_rule(
            doc_workspace,
            status,
            has_id,
            workspace_id,
            include_completed,
        ) != ReprocessDecision::Queue,
        status == Some("completed"@) && !include_completed ==> reprocess_rule(
            doc_workspace,
            status,
            has_id,
            workspace_id,
            include_completed,
        ) != ReprocessDecision::Queue,
        (reprocess_rule(doc_workspace, status, has_id, workspace_id, include_completed)
            == ReprocessDecision::Queue) <==> ({
            let ws = match doc_workspace {
                Some(w) => w,
                None => "default"@,
            };
            &&& ws == workspace_id || ws == "default"@
            &&& has_id
            &&& status != Some("processing"@)
            &&& include_completed || status != Some("completed"@)
        }),
        (doc_workspace is Some && doc_workspace->0 != workspace_id && doc_workspace->0
            != "default"@) ==> reprocess_rule(doc_workspace, status, has_id, workspace_id, include_completed)
            == ReprocessDecision::WrongWorkspace,
{
}

/// The running counts of a bulk re-processing run.
#[derive(Debug, Clone, Copy, PartialEq, Eq, Structural)]
pub struct ReprocessTally {
    /// The workspace's documents looked at.
    pub documents_found: usize,
    /// Documents queued for processing.
    pub documents_queued: usize,
    /// Documents looked at and not queued.
    pub documents_skipped: usize,
}

/// A run before its first document: all counts zero.
pub fn reprocess_start() -> (t: ReprocessTally)
    ensures
        t.documents_found == 0 && t.documents_queued == 0 && t.documents_skipped == 0,
{
    ReprocessTally { documents_found: 0, documents_queued: 0, documents_skipped: 0 }
}

/// Whether the run goes on to its next document: fewer than
/// `max_documents` are queued so far.
pub fn reprocess_has_room(t: ReprocessTally, max_documents: usize) -> (r: bool)
    ensures
        r == (t.documents_queued < max_documents),
{
    t.documents_queued < max_documents
}

/// The re-processing step rule. Once `max_documents` are queued the run
/// stops and nothing more is counted. Another workspace's document is not
/// counted. Every other is found, and then queued when it was decided
/// `Queue` and its task went out (`sent`: its content was there and the
/// task was stored and queued), else skipped.
pub open spec fn reprocess_next(
    t: ReprocessTally,
    d: ReprocessDecision,
    sent: bool,
    max_documents: usize,
) -> ReprocessTally {
    if t.documents_queued >= max_documents || d == ReprocessDecision::WrongWorkspace {
        t
    } else if d == ReprocessDecision::Queue && sent {
        ReprocessTally {
            documents_found: (t.documents_found + 1) as usize,
            documents_queued: (t.documents_queued + 1) as usize,
            ..t
        }
    } else {
        ReprocessTally {
            documents_found: (t.documents_found + 1) as usize,
            documents_skipped: (t.documents_skipped + 1) as usize,
            ..t
        }
    }
}

/// Counts one stored document of a re-processing run.
pub fn reprocess_step(t: ReprocessTally, d: ReprocessDecision, sent: bool, max_documents: usize) -> (r:
    ReprocessTally)
    requires
        t.documents_found == t.documents_queued + t.documents_skipped,
        t.documents_found < usize::MAX,
    ensures
        r == reprocess_next(t, d, sent, max_documents),
{
    if t.documents_queued >= max_documents || d == ReprocessDecision::WrongWorkspace {
        t
    } else if d == ReprocessDecision::Queue && sent {
        ReprocessTally {
            documents_found: t.documents_found + 1,
            documents_queued: t.documents_queued + 1,
            ..t
        }
    } else {
        ReprocessTally {
            documents_found: t.documents_found + 1,
            documents_skipped: t.documents_skipped + 1,
            ..t
        }
    }
}

/// Law: every step keeps the run's balance — the documents found are the
/// queued ones and the skipped ones — and never queues more than
/// `max_documents`; only a document decided `Queue` is queued.
pub proof fn law_reprocess_step_balance(
    t: ReprocessTally,
    d: ReprocessDecision,
    sent: bool,
    max_documents: usize,
)
    requires
        t.documents_found == t.documents_queued + t.documents_skipped,
        t.documents_queued <= max_documents,
        t.documents_found < usize::MAX,
    ensures
        ({
            let n = reprocess_next(t, d, sent, max_documents);
            &&& n.documents_found == n.documents_queued + n.documents_skipped
            &&& n.documents_queued <= max_documents
            &&& n.documents_queued > t.documents_queued ==> d == ReprocessDecision::Queue
        }),
{
}

/// The reported state and time estimate of a re-processing run:
/// `processing` and one second per queued document when any was queued,
/// else `no_documents` and no estimate.
pub fn reprocess_report(documents_queued: usize) -> (r: (&'static str, Option<u64>))
    ensures
        r.0@ == (if documents_queued > 0 {
            "processing"@
        } else {
            "no_documents"@
        }),
        documents_queued > 0 ==> r.1 == Some(documents_queued as u64),
        documents_queued == 0 ==> r.1 is None,
{
    if documents_queued > 0 {
        ("processing", Some(documents_queued as u64))
    } else {
        ("no_documents", None)
    }
}

} // verus!
