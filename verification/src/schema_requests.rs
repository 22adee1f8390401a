//! Decisions taken by the schema lifecycle requests: which suggestions may
//! start, how a merge-patch applies, the markers stored while a suggestion
//! runs or after it failed, and what a re-sample stores and answers.

use vstd::prelude::*;

use crate::error::ApiError;
use crate::text::trimmed;
use crate::schema::{
    PENDING_STALENESS_MS, PENDING_STALE_ERROR, hint_is, is_pending_stale, pending_stale, reports, schema_proposal_to_body, EntityTypeProposal, RelationTypeProposal,
    SchemaProposal, SchemaResponseBody, SchemaStatus, FAILED_SENTINEL_PREFIX, PENDING_SENTINEL,
};
use crate::schema_merge::{
    added_entities, merge_schema_at, merged_entities, merged_relations, relation_conflicts,
    MergeResult, RelationConflict,
};
use crate::text::{begins_with, concat, contains_text, occurs_in, owned, same_text, starts_with};

verus! {

broadcast use {vstd::seq_lib::group_filter_ensures, vstd::seq::Seq::lemma_filter_push};

/// Request body of a schema suggestion; every field is optional.
#[derive(Debug, Clone, PartialEq, Eq)]
pub struct SuggestSchemaRequest {
    /// Domain description (for example "legal case files").
    pub domain_description: Option<String>,
    /// Domain hint (older alias of the description).
    pub domain_hint: Option<String>,
    /// Override of the sampling budget.
    pub sample_budget: Option<usize>,
}

impl Default for SuggestSchemaRequest {
    fn default() -> (r: Self)
        ensures
            r.domain_description is None,
            r.domain_hint is None,
            r.sample_budget is None,
    {
        SuggestSchemaRequest { domain_description: None, domain_hint: None, sample_budget: None }
    }
}

/// Request body of a schema merge-patch: each present field replaces the
/// stored one, each absent field is left alone.
#[derive(Debug, Clone, PartialEq, Eq)]
pub struct PatchSchemaRequest {
    pub entity_types: Option<Vec<EntityTypeProposal>>,
    pub relation_types: Option<Vec<RelationTypeProposal>>,
}

/// A namespace and the report of its schema.
#[derive(Debug, Clone, PartialEq, Eq)]
pub struct SchemaResponse {
    pub namespace: String,
    pub schema: SchemaResponseBody,
}

/// A namespace and its stored proposal after an approval or rejection.
#[derive(Debug, Clone, PartialEq, Eq)]
pub struct SchemaActionResponse {
    pub namespace: String,
    pub schema: SchemaProposal,
}

/// The answer to a re-sample: the stored proposal's report and the diff.
#[derive(Debug, PartialEq, Eq)]
pub struct ResampleResponse {
    pub schema: SchemaResponseBody,
    /// Names of the entity types the re-sample added.
    pub added: Vec<String>,
    /// Names of the entity types kept from the current proposal.
    pub preserved: Vec<String>,
    /// Relation names whose re-sampled endpoints were rejected.
    pub conflicts: Vec<RelationConflict>,
}

/// What a suggestion request leads to when it is not refused.
#[derive(Debug, Clone, Copy, PartialEq, Eq, Structural)]
pub enum SuggestStart {
    /// Store a pending marker and start the suggestion.
    Start,
    /// A fresh suggestion is already running: answer 202 without starting one.
    AlreadyInProgress,
}

/// Which request asks for a data location to sample from.
#[derive(Debug, Clone, Copy, PartialEq, Eq, Structural)]
pub enum SamplingPurpose {
    Suggest,
    Resample,
}

/// Whether an optional user value starts with the reserved `__`.
pub open spec fn reserved_value(v: Option<String>) -> bool {
    v is Some && begins_with(v->0@, "__"@)
}

/// The message refusing a user `field` that starts with `__`.
pub open spec fn reserved_message(field: Seq<char>) -> Seq<char> {
    field + " must not start with '__' (reserved for internal sentinels)"@
}

fn reserved(v: &Option<String>) -> (r: bool)
    ensures
        r == reserved_value(*v),
{
    match v {
        Some(x) => starts_with(x.as_str(), "__"),
        None => false,
    }
}

/// Refuses a suggestion whose domain description (checked first) or domain
/// hint starts with `__`, which is reserved for the stored sentinels.
pub fn check_suggest_request(req: &SuggestSchemaRequest) -> (r: Result<(), ApiError>)
    ensures
        reserved_value(req.domain_description) ==> r is Err && r->Err_0 is BadRequest
            && r->Err_0->BadRequest_0@ == reserved_message("domain_description"@),
        !reserved_value(req.domain_description) && reserved_value(req.domain_hint) ==> r is Err
            && r->Err_0 is BadRequest && r->Err_0->BadRequest_0@ == reserved_message(
            "domain_hint"@,
        ),
        !reserved_value(req.domain_description) && !reserved_value(req.domain_hint) ==> r is Ok,
{
    if reserved(&req.domain_description) {
        return Err(
            ApiError::BadRequest(
                concat(
                    "domain_description",
                    " must not start with '__' (reserved for internal sentinels)",
                ),
            ),
        );
    }
    if reserved(&req.domain_hint) {
        return Err(
            ApiError::BadRequest(
                concat("domain_hint", " must not start with '__' (reserved for internal sentinels)"),
            ),
        );
    }
    Ok(())
}

/// The name a status is printed with.
pub open spec fn status_name(s: SchemaStatus) -> Seq<char> {
    match s {
        SchemaStatus::NoSchema => "None"@,
        SchemaStatus::Proposed => "Proposed"@,
        SchemaStatus::Approved => "Approved"@,
        SchemaStatus::Rejected => "Rejected"@,
    }
}

fn status_text(s: SchemaStatus) -> (r: &'static str)
    ensures
        r@ == status_name(s),
{
    match s {
        SchemaStatus::NoSchema => "None",
        SchemaStatus::Proposed => "Proposed",
        SchemaStatus::Approved => "Approved",
        SchemaStatus::Rejected => "Rejected",
    }
}

/// The message refusing a suggestion over an existing proposal.
pub open spec fn overwrite_message(status: SchemaStatus, slug: Seq<char>) -> Seq<char> {
    "A "@ + status_name(status) + " schema proposal already exists for namespace '"@ + slug
        + "'. Use POST /namespaces/"@ + slug
        + "/schema/resample to add new types non-destructively, or POST /namespaces/"@ + slug
        + "/schema/defaults to start over from the 4 baseline types (destructive reset)."@
}

/// Decides a suggestion for namespace `slug` given the stored proposal at
/// `now_ms`: none stored, an expired pending marker or a bare `None` proposal
/// start a suggestion; a fresh pending marker means one is already running;
/// a Proposed, Approved or Rejected proposal is never overwritten (409).
pub fn suggest_gate(existing: &Option<SchemaProposal>, slug: &str, now_ms: i64) -> (r: Result<
    SuggestStart,
    ApiError,
>)
    ensures
        match *existing {
            None => r == Ok::<SuggestStart, ApiError>(SuggestStart::Start),
            Some(p) => if hint_is(p, PENDING_SENTINEL@) {
                if pending_stale(p, now_ms as int) {
                    r == Ok::<SuggestStart, ApiError>(SuggestStart::Start)
                } else {
                    r == Ok::<SuggestStart, ApiError>(SuggestStart::AlreadyInProgress)
                }
            } else if p.status == SchemaStatus::NoSchema {
                r == Ok::<SuggestStart, ApiError>(SuggestStart::Start)
            } else {
                r is Err && r->Err_0 is Conflict && r->Err_0->Conflict_0@ == overwrite_message(
                    p.status,
                    slug@,
                )
            },
        },
{
    match existing {
        None => Ok(SuggestStart::Start),
        Some(p) => {
            let pending = match &p.domain_hint {
                Some(h) => same_text(h.as_str(), PENDING_SENTINEL),
                None => false,
            };
            if pending {
                if is_pending_stale(p, now_ms) {
                    Ok(SuggestStart::Start)
                } else {
                    Ok(SuggestStart::AlreadyInProgress)
                }
            } else if p.status == SchemaStatus::NoSchema {
                Ok(SuggestStart::Start)
            } else {
                let mut m = owned("A ");
                m.append(status_text(p.status));
                m.append(" schema proposal already exists for namespace '");
                m.append(slug);
                m.append("'. Use POST /namespaces/");
                m.append(slug);
                m.append(
                    "/schema/resample to add new types non-destructively, or POST /namespaces/",
                );
                m.append(slug);
                m.append(
                    "/schema/defaults to start over from the 4 baseline types (destructive reset).",
                );
                Err(ApiError::Conflict(m))
            }
        },
    }
}

/// Refuses a re-sample (409) while a fresh pending marker is stored.
pub fn resample_gate(current: &Option<SchemaProposal>, now_ms: i64) -> (r: Result<(), ApiError>)
    ensures
        (current is Some && hint_is(current->0, PENDING_SENTINEL@) && !pending_stale(
            current->0,
            now_ms as int,
        )) ==> r is Err && r->Err_0 is Conflict && r->Err_0->Conflict_0@
            == "A schema suggestion is already in progress; wait for it to complete before re-sampling"@,
        !(current is Some && hint_is(current->0, PENDING_SENTINEL@) && !pending_stale(
            current->0,
            now_ms as int,
        )) ==> r is Ok,
{
    match current {
        Some(p) => {
            let pending = match &p.domain_hint {
                Some(h) => same_text(h.as_str(), PENDING_SENTINEL),
                None => false,
            };
            if pending && !is_pending_stale(p, now_ms) {
                Err(
                    ApiError::Conflict(
                        owned(
                            "A schema suggestion is already in progress; wait for it to complete before re-sampling",
                        ),
                    ),
                )
            } else {
                Ok(())
            }
        },
        None => Ok(()),
    }
}

/// The message for a namespace with neither staged documents nor a
/// configured snapshot location.
pub open spec fn no_location_message(purpose: SamplingPurpose, slug: Seq<char>) -> Seq<char> {
    match purpose {
        SamplingPurpose::Suggest => "Cannot suggest schema for namespace '"@ + slug
            + "': no parked raw docs found in S3 and snapshot_uri is not configured. Upload documents first."@,
        SamplingPurpose::Resample => "Cannot re-sample schema for namespace '"@ + slug
            + "': no parked raw docs found in S3 and snapshot_uri is not configured."@,
    }
}

/// The location to sample from when no workspace documents were staged: the
/// configured snapshot location, which must exist (else 400) and must not
/// hold `..` (else 400).
pub fn fallback_sampling_location(
    snapshot_uri: Option<String>,
    purpose: SamplingPurpose,
    slug: &str,
) -> (r: Result<String, ApiError>)
    ensures
        snapshot_uri is None ==> r is Err && r->Err_0 is BadRequest && r->Err_0->BadRequest_0@
            == no_location_message(purpose, slug@),
        snapshot_uri is Some && occurs_in(snapshot_uri->0@, ".."@) ==> r is Err && r->Err_0 is BadRequest
            && r->Err_0->BadRequest_0@
            == "snapshot_uri must not contain '..' path-traversal sequences"@,
        snapshot_uri is Some && !occurs_in(snapshot_uri->0@, ".."@) ==> r == Ok::<
            String,
            ApiError,
        >(snapshot_uri->0),
{
    match snapshot_uri {
        None => {
            let msg = match purpose {
                SamplingPurpose::Suggest => {
                    let mut m = owned("Cannot suggest schema for namespace '");
                    m.append(slug);
                    m.append(
                        "': no parked raw docs found in S3 and snapshot_uri is not configured. Upload documents first.",
                    );
                    m
                },
                SamplingPurpose::Resample => {
                    let mut m = owned("Cannot re-sample schema for namespace '");
                    m.append(slug);
                    m.append(
                        "': no parked raw docs found in S3 and snapshot_uri is not configured.",
                    );
                    m
                },
            };
            Err(ApiError::BadRequest(msg))
        },
        Some(location) => {
            if contains_text(location.as_str(), "..") {
                Err(
                    ApiError::BadRequest(
                        owned("snapshot_uri must not contain '..' path-traversal sequences"),
                    ),
                )
            } else {
                Ok(location)
            }
        },
    }
}

/// Whether `p` is a marker with `status`, no types, no samples, hint `hint`,
/// proposed at `now_ms`.
pub open spec fn is_marker(p: SchemaProposal, status: SchemaStatus, hint: Seq<char>, now_ms: i64) -> bool {
    &&& p.status == status
    &&& p.entity_types@.len() == 0
    &&& p.relation_types@.len() == 0
    &&& p.sample_size == 0
    &&& p.total_documents == 0
    &&& p.domain_hint is Some && p.domain_hint->0@ == hint
    &&& p.proposed_at == now_ms
    &&& p.reviewed_at is None
    &&& p.sampling_metadata is None
}

/// The marker stored when a suggestion starts at `now_ms`.
pub fn pending_marker(now_ms: i64) -> (p: SchemaProposal)
    ensures
        is_marker(p, SchemaStatus::Proposed, PENDING_SENTINEL@, now_ms),
{
    SchemaProposal {
        status: SchemaStatus::Proposed,
        entity_types: Vec::new(),
        relation_types: Vec::new(),
        sample_size: 0,
        total_documents: 0,
        domain_hint: Some(owned(PENDING_SENTINEL)),
        proposed_at: now_ms,
        reviewed_at: None,
        sampling_metadata: None,
    }
}

/// The marker stored when a suggestion failed with `error` at `now_ms`:
/// status `None` and the hint `"__failed__: <error>"`.
pub fn failed_marker(error: &str, now_ms: i64) -> (p: SchemaProposal)
    ensures
        is_marker(p, SchemaStatus::NoSchema, FAILED_SENTINEL_PREFIX@ + " "@ + error@, now_ms),
{
    let mut hint = owned(FAILED_SENTINEL_PREFIX);
    hint.append(" ");
    hint.append(error);
    SchemaProposal {
        status: SchemaStatus::NoSchema,
        entity_types: Vec::new(),
        relation_types: Vec::new(),
        sample_size: 0,
        total_documents: 0,
        domain_hint: Some(hint),
        proposed_at: now_ms,
        reviewed_at: None,
        sampling_metadata: None,
    }
}


/// The relation types without any named `RELATED_TO`.
pub open spec fn without_related_to(s: Seq<RelationTypeProposal>) -> Seq<RelationTypeProposal> {
    s.filter(|r: RelationTypeProposal| r.name@ != "RELATED_TO"@)
}

/// Whether a patch carries any field.
pub open spec fn patch_changes_types(patch: PatchSchemaRequest) -> bool {
    patch.entity_types is Some || patch.relation_types is Some
}

/// The patch rule: present entity types replace the stored ones, present
/// relation types replace them without any `RELATED_TO`, and a patch with
/// either field on an Approved proposal sends it back to Proposed, unreviewed.
pub open spec fn is_patch_of(q: SchemaProposal, p: SchemaProposal, patch: PatchSchemaRequest) -> bool {
    let reset = patch_changes_types(patch) && p.status == SchemaStatus::Approved;
    &&& q.entity_types@ == match patch.entity_types {
        Some(v) => v@,
        None => p.entity_types@,
    }
    &&& q.relation_types@ == match patch.relation_types {
        Some(v) => without_related_to(v@),
        None => p.relation_types@,
    }
    &&& q.status == if reset { SchemaStatus::Proposed } else { p.status }
    &&& q.reviewed_at == if reset { None } else { p.reviewed_at }
    &&& q.sample_size == p.sample_size
    &&& q.total_documents == p.total_documents
    &&& q.domain_hint == p.domain_hint
    &&& q.proposed_at == p.proposed_at
    &&& q.sampling_metadata == p.sampling_metadata
}

/// Law: editing the types of an approved schema takes the approval away. A
/// patch that carries entity types or relation types, applied to an
/// Approved proposal, gives a Proposed proposal that is not reviewed, so it
/// must be approved again; a patch that carries neither changes neither the
/// status nor the review time, and a proposal that was not Approved keeps
/// its status whatever the patch.
pub proof fn law_patch_requires_reapproval(q: SchemaProposal, p: SchemaProposal, patch: PatchSchemaRequest)
    requires
        is_patch_of(q, p, patch),
    ensures
        (patch.entity_types is Some || patch.relation_types is Some) && p.status
            == SchemaStatus::Approved ==> q.status == SchemaStatus::Proposed && q.reviewed_at is None,
        patch.entity_types is None && patch.relation_types is None ==> q.status == p.status
            && q.reviewed_at == p.reviewed_at,
        p.status != SchemaStatus::Approved ==> q.status == p.status && q.reviewed_at
            == p.reviewed_at,
{
}

/// Law: a patch replaces only what it carries. Entity types it carries
/// become the proposal's as given, else the stored ones stay; relation
/// types it carries become the proposal's, keeping exactly those not named
/// `RELATED_TO`, in order; else the stored ones stay.
pub proof fn law_patch_replaces_carried_types(
    q: SchemaProposal,
    p: SchemaProposal,
    patch: PatchSchemaRequest,
)
    requires
        is_patch_of(q, p, patch),
    ensures
        patch.entity_types is Some ==> q.entity_types@ == patch.entity_types->0@,
        patch.entity_types is None ==> q.entity_types@ == p.entity_types@,
        patch.relation_types is None ==> q.relation_types@ == p.relation_types@,
        patch.relation_types is Some ==> {
            let given = patch.relation_types->0@;
            &&& forall|i: int|
                0 <= i < q.relation_types@.len() ==> (#[trigger] q.relation_types@[i]).name@
                    != "RELATED_TO"@ && given.contains(q.relation_types@[i])
            &&& forall|j: int|
                0 <= j < given.len() && (#[trigger] given[j]).name@ != "RELATED_TO"@
                    ==> q.relation_types@.contains(given[j])
            &&& q.relation_types@.len() <= given.len()
        },
{
    if patch.relation_types is Some {
        let given = patch.relation_types->0@;
        let pred = |r: RelationTypeProposal| r.name@ != "RELATED_TO"@;
        assert forall|i: int| 0 <= i < q.relation_types@.len() implies (
        #[trigger] q.relation_types@[i]).name@ != "RELATED_TO"@ && given.contains(
            q.relation_types@[i],
        ) by {
            given.lemma_filter_pred(pred, i);
            assert(q.relation_types@.contains(q.relation_types@[i]));
            given.lemma_filter_contains_rev(pred, q.relation_types@[i]);
        }
        assert forall|j: int| 0 <= j < given.len() && (#[trigger] given[j]).name@ != "RELATED_TO"@
            implies q.relation_types@.contains(given[j]) by {
            given.lemma_filter_contains(pred, j);
        }
        given.filter_lemma(pred);
    }
}

fn strip_related_to(v: Vec<RelationTypeProposal>) -> (r: Vec<RelationTypeProposal>)
    ensures
        r@ == without_related_to(v@),
{
    let mut r: Vec<RelationTypeProposal> = Vec::new();
    let mut i: usize = 0;
    while i < v.len()
        invariant
            i <= v.len(),
            r@ == without_related_to(v@.take(i as int)),
        decreases v.len() - i,
    {
        assert(v@.take(i + 1) == v@.take(i as int).push(v@[i as int]));
        if !same_text(v[i].name.as_str(), "RELATED_TO") {
            r.push(v[i].duplicate());
        }
        i = i + 1;
    }
    assert(v@.take(v.len() as int) == v@);
    r
}

/// Applies a merge-patch to the stored proposal. A proposal carrying the
/// pending marker is never patched (409): the running suggestion would race
/// the edit.
pub fn apply_schema_patch(proposal: SchemaProposal, patch: PatchSchemaRequest) -> (r: Result<
    SchemaProposal,
    ApiError,
>)
    ensures
        hint_is(proposal, PENDING_SENTINEL@) ==> r is Err && r->Err_0 is Conflict
            && r->Err_0->Conflict_0@
            == "A schema suggestion is in progress for this namespace; wait for it to complete before editing the schema"@,
        !hint_is(proposal, PENDING_SENTINEL@) ==> r is Ok && is_patch_of(r->Ok_0, proposal, patch),
        r is Ok && patch.relation_types is Some ==> forall|i: int|
            0 <= i < r->Ok_0.relation_types@.len() ==> (#[trigger] r->Ok_0.relation_types@[i]).name@
                != "RELATED_TO"@,
        r is Ok && (patch.entity_types is Some || patch.relation_types is Some) && proposal.status
            == SchemaStatus::Approved ==> r->Ok_0.status == SchemaStatus::Proposed
            && r->Ok_0.reviewed_at is None,
{
    let pending = match &proposal.domain_hint {
        Some(h) => same_text(h.as_str(), PENDING_SENTINEL),
        None => false,
    };
    if pending {
        return Err(
            ApiError::Conflict(
                owned(
                    "A schema suggestion is in progress for this namespace; wait for it to complete before editing the schema",
                ),
            ),
        );
    }
    let ghost old_p = proposal;
    let mut proposal = proposal;
    let types_changed = patch.entity_types.is_some() || patch.relation_types.is_some();
    match patch.entity_types {
        Some(entity_types) => {
            proposal.entity_types = entity_types;
        },
        None => {},
    }
    match patch.relation_types {
        Some(relation_types) => {
            proposal.relation_types = strip_related_to(relation_types);
        },
        None => {},
    }
    if types_changed && proposal.status == SchemaStatus::Approved {
        proposal.status = SchemaStatus::Proposed;
        proposal.reviewed_at = None;
    }
    proof {
        if patch.relation_types is Some {
            let pred = |r: RelationTypeProposal| r.name@ != "RELATED_TO"@;
            assert forall|i: int| 0 <= i < proposal.relation_types@.len() implies (
            #[trigger] proposal.relation_types@[i]).name@ != "RELATED_TO"@ by {
                patch.relation_types->0@.lemma_filter_pred(pred, i);
            }
        }
    }
    Ok(proposal)
}

/// What a re-sample stores and answers.
#[derive(Debug, PartialEq, Eq)]
pub struct ResamplePlan {
    /// The proposal to store (always Proposed and unreviewed).
    pub stored: SchemaProposal,
    /// The answer to the caller.
    pub response: ResampleResponse,
}

/// The re-sample of `resampled` at `now_ms` over the stored proposal, if any:
/// with a stored proposal the two are merged; without one the re-sampled
/// proposal itself is stored and all its entity types count as added. Either
/// way the stored proposal is Proposed and unreviewed, so an Approved schema
/// is never replaced without review.
pub fn plan_resample(current: Option<SchemaProposal>, resampled: SchemaProposal, now_ms: i64) -> (r:
    ResamplePlan)
    ensures
        r.stored.status == SchemaStatus::Proposed,
        r.stored.reviewed_at is None,
        reports(r.response.schema, r.stored, now_ms as int),
        match current {
            Some(c) => {
                &&& r.stored.entity_types@ == merged_entities(
                    c.entity_types@,
                    resampled.entity_types@,
                )
                &&& r.stored.relation_types@ == merged_relations(
                    c.relation_types@,
                    resampled.relation_types@,
                )
                &&& r.stored.proposed_at == now_ms
                &&& r.response.added@ == added_entities(
                    c.entity_types@,
                    resampled.entity_types@,
                ).map_values(|e: EntityTypeProposal| e.name)
                &&& r.response.preserved@ == c.entity_types@.map_values(
                    |e: EntityTypeProposal| e.name,
                )
                &&& r.response.conflicts@ == relation_conflicts(
                    c.relation_types@,
                    resampled.relation_types@,
                )
            },
            None => {
                &&& r.stored.entity_types@ == resampled.entity_types@
                &&& r.stored.relation_types@ == resampled.relation_types@
                &&& r.stored.proposed_at == resampled.proposed_at
                &&& r.response.added@ == resampled.entity_types@.map_values(
                    |e: EntityTypeProposal| e.name,
                )
                &&& r.response.preserved@.len() == 0
                &&& r.response.conflicts@.len() == 0
            },
        },
        r.stored.sample_size == resampled.sample_size,
        r.stored.total_documents == resampled.total_documents,
        r.stored.domain_hint == resampled.domain_hint,
        r.stored.sampling_metadata == resampled.sampling_metadata,
{
    match current {
        Some(c) => {
            let m = merge_schema_at(&c, &resampled, now_ms);
            let MergeResult { proposal, added, preserved, conflicts } = m;
            let stored = proposal;
            let schema = schema_proposal_to_body(stored.duplicate(), now_ms);
            ResamplePlan { stored, response: ResampleResponse { schema, added, preserved, conflicts } }
        },
        None => {
            let mut added: Vec<String> = Vec::new();
            let mut i: usize = 0;
            while i < resampled.entity_types.len()
                invariant
                    i <= resampled.entity_types@.len(),
                    added@ == resampled.entity_types@.take(i as int).map_values(
                        |e: EntityTypeProposal| e.name,
                    ),
                decreases resampled.entity_types@.len() - i,
            {
                added.push(resampled.entity_types[i].name.clone());
                proof {
                    let g = |e: EntityTypeProposal| e.name;
                    let t = resampled.entity_types@.take(i as int);
                    assert(resampled.entity_types@.take(i + 1) == t.push(
                        resampled.entity_types@[i as int],
                    ));
                    assert(t.push(resampled.entity_types@[i as int]).map_values(g) =~= t.map_values(
                        g,
                    ).push(g(resampled.entity_types@[i as int])));
                }
                i = i + 1;
            }
            proof {
                assert(resampled.entity_types@.take(resampled.entity_types@.len() as int)
                    == resampled.entity_types@);
            }
            let mut stored = resampled;
            stored.status = SchemaStatus::Proposed;
            stored.reviewed_at = None;
            let schema = schema_proposal_to_body(stored.duplicate(), now_ms);
            ResamplePlan {
                stored,
                response: ResampleResponse {
                    schema,
                    added,
                    preserved: Vec::new(),
                    conflicts: Vec::new(),
                },
            }
        },
    }
}


/// Law: a pending marker stored at `stored_at` is reported as a running
/// suggestion (and blocks a second one) until the staleness window has
/// passed, and is reported as a failure with the timeout message (and lets a
/// new suggestion start) afterwards.
pub proof fn law_pending_marker_lifecycle(
    p: SchemaProposal,
    stored_at: i64,
    now_ms: int,
    body: SchemaResponseBody,
)
    requires
        is_marker(p, SchemaStatus::Proposed, PENDING_SENTINEL@, stored_at),
        reports(body, p, now_ms),
    ensures
        hint_is(p, PENDING_SENTINEL@),
        pending_stale(p, now_ms) <==> now_ms - stored_at > PENDING_STALENESS_MS,
        now_ms - stored_at <= PENDING_STALENESS_MS ==> body is Proposing,
        now_ms - stored_at > PENDING_STALENESS_MS ==> body is Failed && body->error@
            == PENDING_STALE_ERROR@,
{
}

/// Law: a failure marker stored for `error` is reported as a failure whose
/// message is the stored text after the failure prefix, trimmed.
pub proof fn law_failed_marker_reports_failure(
    p: SchemaProposal,
    error: Seq<char>,
    stored_at: i64,
    now_ms: int,
    body: SchemaResponseBody,
)
    requires
        is_marker(p, SchemaStatus::NoSchema, FAILED_SENTINEL_PREFIX@ + " "@ + error, stored_at),
        reports(body, p, now_ms),
    ensures
        body is Failed,
        body->error@ == trimmed(" "@ + error),
{
    reveal_strlit("__pending__");
    reveal_strlit("__failed__:");
    reveal_strlit(" ");
    let h = FAILED_SENTINEL_PREFIX@ + " "@ + error;
    assert(h.len() > PENDING_SENTINEL@.len());
    assert(!hint_is(p, PENDING_SENTINEL@));
    assert(h.take(FAILED_SENTINEL_PREFIX@.len() as int) =~= FAILED_SENTINEL_PREFIX@);
    assert(h.skip(FAILED_SENTINEL_PREFIX@.len() as int) =~= " "@ + error);
}

} // verus!
