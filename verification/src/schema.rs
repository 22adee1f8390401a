//! The namespace schema lifecycle: stored proposals, how a stored proposal is
//! reported, the baseline seed, and the additive merge of a re-sampled
//! proposal into the current one.

use vstd::prelude::*;

use crate::text::{begins_with, chars_of, owned, same_text, skip_chars, starts_with, trim_text, trimmed};

verus! {

/// Sentinel `domain_hint` stored while an in-process suggestion runs.
pub const PENDING_SENTINEL: &'static str = "__pending__";

/// Prefix of the `domain_hint` stored when a suggestion task failed.
pub const FAILED_SENTINEL_PREFIX: &'static str = "__failed__:";

/// Age (milliseconds) after which a pending sentinel counts as expired.
pub const PENDING_STALENESS_MS: i64 = 900000;

/// Message reported for an expired pending sentinel.
pub const PENDING_STALE_ERROR: &'static str =
    "Schema suggestion timed out (the suggest task did not complete). Retry the suggestion.";

/// Review state of a schema proposal.
#[derive(Debug, Clone, Copy, PartialEq, Eq, Structural)]
pub enum SchemaStatus {
    /// No proposal (the variant `none` on the wire).
    NoSchema,
    Proposed,
    Approved,
    Rejected,
}

/// One proposed entity type.
#[derive(Debug, Clone, PartialEq, Eq)]
pub struct EntityTypeProposal {
    pub name: String,
    pub description: String,
    pub frequency: usize,
    pub is_baseline: bool,
}

/// One proposed relation type between two entity types.
#[derive(Debug, Clone, PartialEq, Eq)]
pub struct RelationTypeProposal {
    pub name: String,
    pub description: String,
    pub source_type: String,
    pub target_type: String,
    pub frequency: usize,
}

/// A stored schema proposal for a namespace.
#[derive(Debug, Clone, PartialEq, Eq)]
pub struct SchemaProposal {
    pub status: SchemaStatus,
    pub entity_types: Vec<EntityTypeProposal>,
    pub relation_types: Vec<RelationTypeProposal>,
    pub sample_size: usize,
    pub total_documents: usize,
    pub domain_hint: Option<String>,
    pub proposed_at: i64,
    pub reviewed_at: Option<i64>,
    /// Sampling metadata, kept as its serialized JSON text.
    pub sampling_metadata: Option<String>,
}

/// How a stored proposal is reported to clients.
#[derive(Debug, Clone, PartialEq, Eq)]
pub enum SchemaResponseBody {
    /// No schema has been proposed (the variant `none` on the wire).
    NoSchema,
    /// A suggestion is running.
    Proposing,
    /// A full proposal awaiting review.
    Proposed {
        entity_types: Vec<EntityTypeProposal>,
        relation_types: Vec<RelationTypeProposal>,
        sample_size: usize,
        total_documents: usize,
        domain_hint: Option<String>,
        proposed_at: i64,
        reviewed_at: Option<i64>,
    },
    /// An approved proposal.
    Approved {
        entity_types: Vec<EntityTypeProposal>,
        relation_types: Vec<RelationTypeProposal>,
        sample_size: usize,
        total_documents: usize,
        domain_hint: Option<String>,
        proposed_at: i64,
        reviewed_at: Option<i64>,
    },
    /// A rejected proposal.
    Rejected {
        entity_types: Vec<EntityTypeProposal>,
        relation_types: Vec<RelationTypeProposal>,
        sample_size: usize,
        total_documents: usize,
        domain_hint: Option<String>,
        proposed_at: i64,
        reviewed_at: Option<i64>,
    },
    /// The suggestion failed; a new suggestion may be started.
    Failed { error: String },
}


/// Whether the proposal's `domain_hint` is exactly `marker`.
pub open spec fn hint_is(p: SchemaProposal, marker: Seq<char>) -> bool {
    p.domain_hint is Some && p.domain_hint->0@ == marker
}

/// Whether the proposal carries a pending sentinel older than the staleness
/// window at time `now_ms` (the difference is taken without overflow).
pub open spec fn pending_stale(p: SchemaProposal, now_ms: int) -> bool {
    hint_is(p, PENDING_SENTINEL@) && now_ms - p.proposed_at > PENDING_STALENESS_MS
}

/// Whether the reported fields are exactly those of `p`.
pub open spec fn same_fields(
    entity_types: Vec<EntityTypeProposal>,
    relation_types: Vec<RelationTypeProposal>,
    sample_size: usize,
    total_documents: usize,
    domain_hint: Option<String>,
    proposed_at: i64,
    reviewed_at: Option<i64>,
    p: SchemaProposal,
) -> bool {
    &&& entity_types@ == p.entity_types@
    &&& relation_types@ == p.relation_types@
    &&& sample_size == p.sample_size
    &&& total_documents == p.total_documents
    &&& domain_hint == p.domain_hint
    &&& proposed_at == p.proposed_at
    &&& reviewed_at == p.reviewed_at
}

/// Whether `body` is the full-proposal variant for `status` carrying exactly
/// the fields of `p`.
pub open spec fn carries_fields(body: SchemaResponseBody, status: SchemaStatus, p: SchemaProposal) -> bool {
    match body {
        SchemaResponseBody::Proposed {
            entity_types,
            relation_types,
            sample_size,
            total_documents,
            domain_hint,
            proposed_at,
            reviewed_at,
        } => status == SchemaStatus::Proposed && same_fields(
            entity_types,
            relation_types,
            sample_size,
            total_documents,
            domain_hint,
            proposed_at,
            reviewed_at,
            p,
        ),
        SchemaResponseBody::Approved {
            entity_types,
            relation_types,
            sample_size,
            total_documents,
            domain_hint,
            proposed_at,
            reviewed_at,
        } => status == SchemaStatus::Approved && same_fields(
            entity_types,
            relation_types,
            sample_size,
            total_documents,
            domain_hint,
            proposed_at,
            reviewed_at,
            p,
        ),
        SchemaResponseBody::Rejected {
            entity_types,
            relation_types,
            sample_size,
            total_documents,
            domain_hint,
            proposed_at,
            reviewed_at,
        } => status == SchemaStatus::Rejected && same_fields(
            entity_types,
            relation_types,
            sample_size,
            total_documents,
            domain_hint,
            proposed_at,
            reviewed_at,
            p,
        ),
        _ => false,
    }
}

/// The report for a pending sentinel: `Failed` with the timeout message once
/// stale, `Proposing` before.
pub open spec fn pending_report(body: SchemaResponseBody, p: SchemaProposal, now_ms: int) -> bool {
    if pending_stale(p, now_ms) {
        body is Failed && body->error@ == PENDING_STALE_ERROR@
    } else {
        body is Proposing
    }
}

/// The complete rule for reporting a stored proposal at time `now_ms`.
pub open spec fn reports(body: SchemaResponseBody, p: SchemaProposal, now_ms: int) -> bool {
    match p.status {
        SchemaStatus::NoSchema => if hint_is(p, PENDING_SENTINEL@) {
            pending_report(body, p, now_ms)
        } else if p.domain_hint is Some && begins_with(p.domain_hint->0@, FAILED_SENTINEL_PREFIX@) {
            body is Failed && body->error@ == trimmed(
                p.domain_hint->0@.skip(FAILED_SENTINEL_PREFIX@.len() as int),
            )
        } else {
            body is NoSchema
        },
        SchemaStatus::Proposed => if hint_is(p, PENDING_SENTINEL@) {
            pending_report(body, p, now_ms)
        } else {
            carries_fields(body, SchemaStatus::Proposed, p)
        },
        _ => carries_fields(body, p.status, p),
    }
}

/// Whether an optional hint equals `marker`.
fn hint_equals(hint: &Option<String>, marker: &str) -> (r: bool)
    ensures
        r == (hint is Some && hint->0@ == marker@),
{
    match hint {
        Some(h) => same_text(h.as_str(), marker),
        None => false,
    }
}

/// Whether `proposal` carries a pending sentinel older than
/// [`PENDING_STALENESS_MS`] at time `now_ms`.
pub fn is_pending_stale(proposal: &SchemaProposal, now_ms: i64) -> (r: bool)
    ensures
        r == pending_stale(*proposal, now_ms as int),
{
    if !hint_equals(&proposal.domain_hint, PENDING_SENTINEL) {
        return false;
    }
    let age: i128 = now_ms as i128 - proposal.proposed_at as i128;
    age > PENDING_STALENESS_MS as i128
}

/// The report for a stored proposal at time `now_ms`: a pending sentinel is
/// `Proposing` (or `Failed` once stale), a failure marker is `Failed` with its
/// message, a bare `None` is `None`, and any other proposal is reported with
/// all of its fields under its status.
pub fn schema_proposal_to_body(proposal: SchemaProposal, now_ms: i64) -> (body: SchemaResponseBody)
    ensures
        reports(body, proposal, now_ms as int),
{
    let pending = hint_equals(&proposal.domain_hint, PENDING_SENTINEL);
    let stale = is_pending_stale(&proposal, now_ms);
    match proposal.status {
        SchemaStatus::NoSchema => {
            if pending {
                if stale {
                    SchemaResponseBody::Failed { error: owned(PENDING_STALE_ERROR) }
                } else {
                    SchemaResponseBody::Proposing
                }
            } else {
                match &proposal.domain_hint {
                    Some(h) => {
                        if starts_with(h.as_str(), FAILED_SENTINEL_PREFIX) {
                            let n = chars_of(FAILED_SENTINEL_PREFIX).len();
                            let rest = skip_chars(h.as_str(), n);
                            SchemaResponseBody::Failed { error: trim_text(rest.as_str()) }
                        } else {
                            SchemaResponseBody::NoSchema
                        }
                    },
                    None => SchemaResponseBody::NoSchema,
                }
            }
        },
        SchemaStatus::Proposed => {
            if pending {
                if stale {
                    SchemaResponseBody::Failed { error: owned(PENDING_STALE_ERROR) }
                } else {
                    SchemaResponseBody::Proposing
                }
            } else {
                SchemaResponseBody::Proposed {
                    entity_types: proposal.entity_types,
                    relation_types: proposal.relation_types,
                    sample_size: proposal.sample_size,
                    total_documents: proposal.total_documents,
                    domain_hint: proposal.domain_hint,
                    proposed_at: proposal.proposed_at,
                    reviewed_at: proposal.reviewed_at,
                }
            }
        },
        SchemaStatus::Approved => SchemaResponseBody::Approved {
            entity_types: proposal.entity_types,
            relation_types: proposal.relation_types,
            sample_size: proposal.sample_size,
            total_documents: proposal.total_documents,
            domain_hint: proposal.domain_hint,
            proposed_at: proposal.proposed_at,
            reviewed_at: proposal.reviewed_at,
        },
        SchemaStatus::Rejected => SchemaResponseBody::Rejected {
            entity_types: proposal.entity_types,
            relation_types: proposal.relation_types,
            sample_size: proposal.sample_size,
            total_documents: proposal.total_documents,
            domain_hint: proposal.domain_hint,
            proposed_at: proposal.proposed_at,
            reviewed_at: proposal.reviewed_at,
        },
    }
}


impl EntityTypeProposal {
    /// A field-by-field copy.
    pub fn duplicate(&self) -> (r: Self)
        ensures
            r == *self,
    {
        EntityTypeProposal {
            name: self.name.clone(),
            description: self.description.clone(),
            frequency: self.frequency,
            is_baseline: self.is_baseline,
        }
    }
}

impl RelationTypeProposal {
    /// A field-by-field copy.
    pub fn duplicate(&self) -> (r: Self)
        ensures
            r == *self,
    {
        RelationTypeProposal {
            name: self.name.clone(),
            description: self.description.clone(),
            source_type: self.source_type.clone(),
            target_type: self.target_type.clone(),
            frequency: self.frequency,
        }
    }
}

/// A copy of a sequence of entity types.
pub fn duplicate_entities(v: &Vec<EntityTypeProposal>) -> (r: Vec<EntityTypeProposal>)
    ensures
        r@ == v@,
{
    let mut r: Vec<EntityTypeProposal> = Vec::new();
    let mut i: usize = 0;
    while i < v.len()
        invariant
            i <= v.len(),
            r@ == v@.take(i as int),
        decreases v.len() - i,
    {
        r.push(v[i].duplicate());
        assert(v@.take(i + 1) == v@.take(i as int).push(v@[i as int]));
        i = i + 1;
    }
    assert(v@.take(v.len() as int) == v@);
    r
}

/// A copy of a sequence of relation types.
pub fn duplicate_relations(v: &Vec<RelationTypeProposal>) -> (r: Vec<RelationTypeProposal>)
    ensures
        r@ == v@,
{
    let mut r: Vec<RelationTypeProposal> = Vec::new();
    let mut i: usize = 0;
    while i < v.len()
        invariant
            i <= v.len(),
            r@ == v@.take(i as int),
        decreases v.len() - i,
    {
        r.push(v[i].duplicate());
        assert(v@.take(i + 1) == v@.take(i as int).push(v@[i as int]));
        i = i + 1;
    }
    assert(v@.take(v.len() as int) == v@);
    r
}

impl SchemaProposal {
    /// A field-by-field copy.
    pub fn duplicate(&self) -> (r: Self)
        ensures
            r.status == self.status,
            r.entity_types@ == self.entity_types@,
            r.relation_types@ == self.relation_types@,
            r.sample_size == self.sample_size,
            r.total_documents == self.total_documents,
            r.domain_hint == self.domain_hint,
            r.proposed_at == self.proposed_at,
            r.reviewed_at == self.reviewed_at,
            r.sampling_metadata == self.sampling_metadata,
    {
        SchemaProposal {
            status: self.status,
            entity_types: duplicate_entities(&self.entity_types),
            relation_types: duplicate_relations(&self.relation_types),
            sample_size: self.sample_size,
            total_documents: self.total_documents,
            domain_hint: copy_opt_string(&self.domain_hint),
            proposed_at: self.proposed_at,
            reviewed_at: self.reviewed_at,
            sampling_metadata: copy_opt_string(&self.sampling_metadata),
        }
    }
}

/// A copy of an optional string.
fn copy_opt_string(s: &Option<String>) -> (r: Option<String>)
    ensures
        r == *s,
{
    match s {
        Some(x) => Some(x.clone()),
        None => None,
    }
}

/// Whether `e` is a baseline seed entry named `name` with `description`.
pub open spec fn baseline_entry(e: EntityTypeProposal, name: Seq<char>, description: Seq<char>) -> bool {
    &&& e.name@ == name
    &&& e.description@ == description
    &&& e.frequency == 0
    &&& e.is_baseline
}

/// The baseline seed: a `Proposed` proposal of exactly the four entity types
/// PERSON, ORGANIZATION, LOCATION and DATE (in that order, frequency 0,
/// marked baseline), no relation types, no samples and no domain hint.
pub open spec fn is_baseline_seed(p: SchemaProposal) -> bool {
    &&& p.status == SchemaStatus::Proposed
    &&& p.entity_types@.len() == 4
    &&& baseline_entry(p.entity_types@[0], "PERSON"@, "Named individuals"@)
    &&& baseline_entry(p.entity_types@[1], "ORGANIZATION"@, "Companies, institutions, government agencies"@)
    &&& baseline_entry(p.entity_types@[2], "LOCATION"@, "Places, addresses, geographic regions"@)
    &&& baseline_entry(p.entity_types@[3], "DATE"@, "Dates, time periods, timestamps"@)
    &&& p.relation_types@.len() == 0
    &&& p.sample_size == 0
    &&& p.total_documents == 0
    &&& p.domain_hint is None
    &&& p.reviewed_at is None
    &&& p.sampling_metadata is None
}

fn baseline_type(name: &str, description: &str) -> (e: EntityTypeProposal)
    ensures
        baseline_entry(e, name@, description@),
{
    EntityTypeProposal {
        name: owned(name),
        description: owned(description),
        frequency: 0,
        is_baseline: true,
    }
}

/// The baseline seed proposal, proposed at `now_ms`.
pub fn build_baseline_proposal_at(now_ms: i64) -> (p: SchemaProposal)
    ensures
        is_baseline_seed(p),
        p.proposed_at == now_ms,
{
    let mut entity_types: Vec<EntityTypeProposal> = Vec::new();
    entity_types.push(baseline_type("PERSON", "Named individuals"));
    entity_types.push(
        baseline_type("ORGANIZATION", "Companies, institutions, government agencies"),
    );
    entity_types.push(baseline_type("LOCATION", "Places, addresses, geographic regions"));
    entity_types.push(baseline_type("DATE", "Dates, time periods, timestamps"));
    SchemaProposal {
        status: SchemaStatus::Proposed,
        entity_types,
        relation_types: Vec::new(),
        sample_size: 0,
        total_documents: 0,
        domain_hint: None,
        proposed_at: now_ms,
        reviewed_at: None,
        sampling_metadata: None,
    }
}

/// The baseline seed proposal, proposed now.
pub fn build_baseline_proposal() -> (p: SchemaProposal)
    ensures
        is_baseline_seed(p),
{
    build_baseline_proposal_at(crate::clock::now_millis())
}

} // verus!
