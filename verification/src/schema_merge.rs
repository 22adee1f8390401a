//! Additive merge of a re-sampled schema proposal into the current one.
//!
//! Entity types are keyed by name: current types are kept with their
//! descriptions, their frequency refreshed from the re-sampled type of the
//! same name; re-sampled types with new names are appended. Relation types are
//! keyed by name too: current relations are kept verbatim, a re-sampled
//! relation of the same name with other endpoints is recorded as a conflict,
//! and relations with new names are appended. Where the re-sampled proposal
//! holds several types of one name, the last of them is the one consulted.

use vstd::prelude::*;

use crate::schema::{EntityTypeProposal, RelationTypeProposal, SchemaProposal, SchemaStatus};
use crate::text::same_text;

verus! {

broadcast use {vstd::seq_lib::group_filter_ensures, vstd::seq::Seq::lemma_filter_push};

/// A relation name present in both proposals whose endpoints differ: the
/// current endpoints were kept, the re-sampled ones rejected.
#[derive(Debug, PartialEq, Eq)]
pub struct RelationConflict {
    pub name: String,
    /// `(source_type, target_type)` of the current, preserved relation.
    pub current_endpoints: (String, String),
    /// `(source_type, target_type)` of the re-sampled, rejected relation.
    pub rejected_endpoints: (String, String),
}

/// The merged proposal and how it came about.
#[derive(Debug, PartialEq, Eq)]
pub struct MergeResult {
    /// The merged proposal (status `Proposed`, not reviewed).
    pub proposal: SchemaProposal,
    /// Names of the entity types taken from the re-sampled proposal only.
    pub added: Vec<String>,
    /// Names of the entity types kept from the current proposal.
    pub preserved: Vec<String>,
    /// Relation names whose re-sampled endpoints were rejected.
    pub conflicts: Vec<RelationConflict>,
}

/// The names of a sequence of entity types.
pub open spec fn entity_names(s: Seq<EntityTypeProposal>) -> Seq<Seq<char>> {
    s.map_values(|e: EntityTypeProposal| e.name@)
}

/// The names of a sequence of relation types.
pub open spec fn relation_names(s: Seq<RelationTypeProposal>) -> Seq<Seq<char>> {
    s.map_values(|r: RelationTypeProposal| r.name@)
}

/// The last position of `name` in `names`, if any.
pub open spec fn last_position(names: Seq<Seq<char>>, name: Seq<char>) -> Option<int>
    decreases names.len(),
{
    if names.len() == 0 {
        None
    } else if names.last() == name {
        Some(names.len() - 1)
    } else {
        last_position(names.drop_last(), name)
    }
}

/// A current entity type with its frequency taken from the last re-sampled
/// type of the same name, if there is one.
pub open spec fn refreshed(e: EntityTypeProposal, resampled: Seq<EntityTypeProposal>) -> EntityTypeProposal {
    match last_position(entity_names(resampled), e.name@) {
        Some(k) => EntityTypeProposal {
            name: e.name,
            description: e.description,
            frequency: resampled[k].frequency,
            is_baseline: e.is_baseline,
        },
        None => e,
    }
}

/// The re-sampled entity types whose names the current proposal lacks.
pub open spec fn added_entities(
    current: Seq<EntityTypeProposal>,
    resampled: Seq<EntityTypeProposal>,
) -> Seq<EntityTypeProposal> {
    resampled.filter(|r: EntityTypeProposal| !entity_names(current).contains(r.name@))
}

/// The merged entity types: every current type, refreshed, then the added ones.
pub open spec fn merged_entities(
    current: Seq<EntityTypeProposal>,
    resampled: Seq<EntityTypeProposal>,
) -> Seq<EntityTypeProposal> {
    current.map_values(|e: EntityTypeProposal| refreshed(e, resampled)) + added_entities(
        current,
        resampled,
    )
}

/// The re-sampled relation types whose names the current proposal lacks.
pub open spec fn added_relations(
    current: Seq<RelationTypeProposal>,
    resampled: Seq<RelationTypeProposal>,
) -> Seq<RelationTypeProposal> {
    resampled.filter(|r: RelationTypeProposal| !relation_names(current).contains(r.name@))
}

/// The merged relation types: every current relation verbatim, then the added ones.
pub open spec fn merged_relations(
    current: Seq<RelationTypeProposal>,
    resampled: Seq<RelationTypeProposal>,
) -> Seq<RelationTypeProposal> {
    current + added_relations(current, resampled)
}

/// Whether the last re-sampled relation named like `c` has other endpoints.
pub open spec fn conflicts_with(c: RelationTypeProposal, resampled: Seq<RelationTypeProposal>) -> bool {
    match last_position(relation_names(resampled), c.name@) {
        Some(k) => resampled[k].source_type@ != c.source_type@ || resampled[k].target_type@
            != c.target_type@,
        None => false,
    }
}

/// The conflict record for a current relation `c`.
pub open spec fn conflict_record(c: RelationTypeProposal, resampled: Seq<RelationTypeProposal>) -> RelationConflict {
    let r = resampled[last_position(relation_names(resampled), c.name@)->0];
    RelationConflict {
        name: c.name,
        current_endpoints: (c.source_type, c.target_type),
        rejected_endpoints: (r.source_type, r.target_type),
    }
}

/// The conflicts, in the order of the current relations.
pub open spec fn relation_conflicts(
    current: Seq<RelationTypeProposal>,
    resampled: Seq<RelationTypeProposal>,
) -> Seq<RelationConflict> {
    current.filter(|c: RelationTypeProposal| conflicts_with(c, resampled)).map_values(
        |c: RelationTypeProposal| conflict_record(c, resampled),
    )
}

/// The complete merge rule, with `now_ms` as the proposal time.
pub open spec fn is_merge_of(
    m: MergeResult,
    current: SchemaProposal,
    resampled: SchemaProposal,
    now_ms: i64,
) -> bool {
    &&& m.proposal.status == SchemaStatus::Proposed
    &&& m.proposal.entity_types@ == merged_entities(current.entity_types@, resampled.entity_types@)
    &&& m.proposal.relation_types@ == merged_relations(
        current.relation_types@,
        resampled.relation_types@,
    )
    &&& m.proposal.sample_size == resampled.sample_size
    &&& m.proposal.total_documents == resampled.total_documents
    &&& m.proposal.domain_hint == resampled.domain_hint
    &&& m.proposal.proposed_at == now_ms
    &&& m.proposal.reviewed_at is None
    &&& m.proposal.sampling_metadata == resampled.sampling_metadata
    &&& m.added@ == added_entities(current.entity_types@, resampled.entity_types@).map_values(
        |e: EntityTypeProposal| e.name,
    )
    &&& m.preserved@ == current.entity_types@.map_values(|e: EntityTypeProposal| e.name)
    &&& m.conflicts@ == relation_conflicts(current.relation_types@, resampled.relation_types@)
}

/// `last_position` finds the last occurrence, or reports that there is none.
pub proof fn lemma_last_position(names: Seq<Seq<char>>, name: Seq<char>)
    ensures
        match last_position(names, name) {
            Some(k) => 0 <= k < names.len() && names[k] == name && forall|j: int|
                k < j < names.len() ==> names[j] != name,
            None => forall|j: int| 0 <= j < names.len() ==> names[j] != name,
        },
        last_position(names, name) is Some <==> names.contains(name),
    decreases names.len(),
{
    if names.len() > 0 {
        let d = names.drop_last();
        lemma_last_position(d, name);
        assert forall|j: int| 0 <= j < d.len() implies d[j] == names[j] by {}
        if names.last() == name {
            assert(names[names.len() - 1] == name);
        } else {
            match last_position(d, name) {
                Some(k) => {
                    assert(names[k] == name);
                },
                None => {
                    assert forall|j: int| 0 <= j < names.len() implies names[j] != name by {
                        if j < d.len() {
                            assert(d[j] != name);
                        }
                    }
                },
            }
        }
    }
}

proof fn lemma_last_position_push(names: Seq<Seq<char>>, x: Seq<char>, name: Seq<char>)
    ensures
        last_position(names.push(x), name) == if x == name {
            Some(names.len() as int)
        } else {
            last_position(names, name)
        },
{
    assert(names.push(x).drop_last() == names);
}

/// The last position of `name` among the entity types' names.
fn find_last_entity(s: &Vec<EntityTypeProposal>, name: &str) -> (r: Option<usize>)
    ensures
        match r {
            Some(k) => last_position(entity_names(s@), name@) == Some(k as int),
            None => last_position(entity_names(s@), name@) is None,
        },
{
    let mut found: Option<usize> = None;
    let mut i: usize = 0;
    while i < s.len()
        invariant
            i <= s.len(),
            match found {
                Some(k) => last_position(entity_names(s@.take(i as int)), name@) == Some(k as int),
                None => last_position(entity_names(s@.take(i as int)), name@) is None,
            },
        decreases s.len() - i,
    {
        proof {
            assert(entity_names(s@.take(i + 1)) == entity_names(s@.take(i as int)).push(
                s@[i as int].name@,
            ));
            lemma_last_position_push(entity_names(s@.take(i as int)), s@[i as int].name@, name@);
        }
        if same_text(s[i].name.as_str(), name) {
            found = Some(i);
        }
        i = i + 1;
    }
    assert(s@.take(s.len() as int) == s@);
    found
}

/// The last position of `name` among the relation types' names.
fn find_last_relation(s: &Vec<RelationTypeProposal>, name: &str) -> (r: Option<usize>)
    ensures
        match r {
            Some(k) => last_position(relation_names(s@), name@) == Some(k as int),
            None => last_position(relation_names(s@), name@) is None,
        },
{
    let mut found: Option<usize> = None;
    let mut i: usize = 0;
    while i < s.len()
        invariant
            i <= s.len(),
            match found {
                Some(k) => last_position(relation_names(s@.take(i as int)), name@) == Some(
                    k as int,
                ),
                None => last_position(relation_names(s@.take(i as int)), name@) is None,
            },
        decreases s.len() - i,
    {
        proof {
            assert(relation_names(s@.take(i + 1)) == relation_names(s@.take(i as int)).push(
                s@[i as int].name@,
            ));
            lemma_last_position_push(
                relation_names(s@.take(i as int)),
                s@[i as int].name@,
                name@,
            );
        }
        if same_text(s[i].name.as_str(), name) {
            found = Some(i);
        }
        i = i + 1;
    }
    assert(s@.take(s.len() as int) == s@);
    found
}

/// Merges `resampled` into `current`, dating the merged proposal `now_ms`.
pub fn merge_schema_at(current: &SchemaProposal, resampled: &SchemaProposal, now_ms: i64) -> (m:
    MergeResult)
    ensures
        is_merge_of(m, *current, *resampled, now_ms),
{
    let ghost cur = current.entity_types@;
    let ghost res = resampled.entity_types@;
    let mut merged_entity_types: Vec<EntityTypeProposal> = Vec::new();
    let mut added: Vec<String> = Vec::new();
    let mut preserved: Vec<String> = Vec::new();

    // Current entity types: description kept, frequency refreshed.
    let mut i: usize = 0;
    while i < current.entity_types.len()
        invariant
            i <= cur.len(),
            cur == current.entity_types@,
            res == resampled.entity_types@,
            merged_entity_types@ == cur.take(i as int).map_values(
                |e: EntityTypeProposal| refreshed(e, res),
            ),
            preserved@ == cur.take(i as int).map_values(|e: EntityTypeProposal| e.name),
        decreases cur.len() - i,
    {
        let mut merged = current.entity_types[i].duplicate();
        let hit = find_last_entity(&resampled.entity_types, current.entity_types[i].name.as_str());
        proof {
            lemma_last_position(entity_names(res), cur[i as int].name@);
        }
        match hit {
            Some(k) => {
                merged.frequency = resampled.entity_types[k].frequency;
            },
            None => {},
        }
        assert(merged == refreshed(cur[i as int], res));
        preserved.push(merged.name.clone());
        merged_entity_types.push(merged);
        proof {
            let f = |e: EntityTypeProposal| refreshed(e, res);
            let g = |e: EntityTypeProposal| e.name;
            assert(cur.take(i + 1) == cur.take(i as int).push(cur[i as int]));
            assert(cur.take(i + 1).map_values(f) =~= cur.take(i as int).map_values(f).push(
                f(cur[i as int]),
            ));
            assert(cur.take(i + 1).map_values(g) =~= cur.take(i as int).map_values(g).push(
                g(cur[i as int]),
            ));
        }
        i = i + 1;
    }
    proof {
        assert(cur.take(cur.len() as int) == cur);
    }

    // Re-sampled entity types with new names are appended.
    let ghost base = merged_entity_types@;
    let mut j: usize = 0;
    while j < resampled.entity_types.len()
        invariant
            j <= res.len(),
            cur == current.entity_types@,
            res == resampled.entity_types@,
            base == cur.map_values(|e: EntityTypeProposal| refreshed(e, res)),
            preserved@ == cur.map_values(|e: EntityTypeProposal| e.name),
            merged_entity_types@ == base + added_entities(cur, res.take(j as int)),
            added@ == added_entities(cur, res.take(j as int)).map_values(
                |e: EntityTypeProposal| e.name,
            ),
        decreases res.len() - j,
    {
        let r = &resampled.entity_types[j];
        let known = find_last_entity(&current.entity_types, r.name.as_str());
        proof {
            lemma_last_position(entity_names(cur), r.name@);
            assert(res.take(j + 1) == res.take(j as int).push(res[j as int]));
        }
        if known.is_none() {
            added.push(r.name.clone());
            merged_entity_types.push(r.duplicate());
        }
        proof {
            let g = |e: EntityTypeProposal| e.name;
            let a = added_entities(cur, res.take(j as int));
            assert(a.push(res[j as int]).map_values(g) =~= a.map_values(g).push(g(res[j as int])));
            assert((base + a).push(res[j as int]) =~= base + a.push(res[j as int]));
        }
        j = j + 1;
    }
    proof {
        assert(res.take(res.len() as int) == res);
    }

    // Relation types: current ones verbatim, conflicts recorded.
    let ghost cur_r = current.relation_types@;
    let ghost res_r = resampled.relation_types@;
    let mut merged_relation_types: Vec<RelationTypeProposal> = Vec::new();
    let mut conflicts: Vec<RelationConflict> = Vec::new();
    let mut i: usize = 0;
    while i < current.relation_types.len()
        invariant
            i <= cur_r.len(),
            cur_r == current.relation_types@,
            res_r == resampled.relation_types@,
            merged_relation_types@ == cur_r.take(i as int),
            conflicts@ == relation_conflicts(cur_r.take(i as int), res_r),
        decreases cur_r.len() - i,
    {
        let c = &current.relation_types[i];
        let hit = find_last_relation(&resampled.relation_types, c.name.as_str());
        let ghost before = conflicts@;
        proof {
            lemma_last_position(relation_names(res_r), c.name@);
            assert(cur_r.take(i + 1) == cur_r.take(i as int).push(cur_r[i as int]));
            let p = |x: RelationTypeProposal| conflicts_with(x, res_r);
            let g = |x: RelationTypeProposal| conflict_record(x, res_r);
            let fl = cur_r.take(i as int).filter(p);
            assert(fl.push(*c).map_values(g) =~= fl.map_values(g).push(g(*c)));
        }
        match hit {
            Some(k) => {
                let r = &resampled.relation_types[k];
                let same_source = same_text(r.source_type.as_str(), c.source_type.as_str());
                let same_target = same_text(r.target_type.as_str(), c.target_type.as_str());
                if !same_source || !same_target {
                    conflicts.push(
                        RelationConflict {
                            name: c.name.clone(),
                            current_endpoints: (c.source_type.clone(), c.target_type.clone()),
                            rejected_endpoints: (r.source_type.clone(), r.target_type.clone()),
                        },
                    );
                }
            },
            None => {},
        }
        merged_relation_types.push(c.duplicate());
        i = i + 1;
    }
    proof {
        assert(cur_r.take(cur_r.len() as int) == cur_r);
    }

    let mut j: usize = 0;
    while j < resampled.relation_types.len()
        invariant
            j <= res_r.len(),
            cur_r == current.relation_types@,
            res_r == resampled.relation_types@,
            merged_relation_types@ == cur_r + added_relations(cur_r, res_r.take(j as int)),
        decreases res_r.len() - j,
    {
        let r = &resampled.relation_types[j];
        let known = find_last_relation(&current.relation_types, r.name.as_str());
        proof {
            lemma_last_position(relation_names(cur_r), r.name@);
            assert(res_r.take(j + 1) == res_r.take(j as int).push(res_r[j as int]));
        }
        if known.is_none() {
            merged_relation_types.push(r.duplicate());
        }
        proof {
            let a = added_relations(cur_r, res_r.take(j as int));
            assert((cur_r + a).push(res_r[j as int]) =~= cur_r + a.push(res_r[j as int]));
        }
        j = j + 1;
    }
    proof {
        assert(res_r.take(res_r.len() as int) == res_r);
    }

    let domain_hint = match &resampled.domain_hint {
        Some(h) => Some(h.clone()),
        None => None,
    };
    let sampling_metadata = match &resampled.sampling_metadata {
        Some(h) => Some(h.clone()),
        None => None,
    };
    let proposal = SchemaProposal {
        status: SchemaStatus::Proposed,
        entity_types: merged_entity_types,
        relation_types: merged_relation_types,
        sample_size: resampled.sample_size,
        total_documents: resampled.total_documents,
        domain_hint,
        proposed_at: now_ms,
        reviewed_at: None,
        sampling_metadata,
    };
    MergeResult { proposal, added, preserved, conflicts }
}

/// Merges `resampled` into `current`, dating the merged proposal now.
pub fn merge_schema(current: &SchemaProposal, resampled: &SchemaProposal) -> (m: MergeResult)
    ensures
        is_merge_of(m, *current, *resampled, m.proposal.proposed_at),
{
    merge_schema_at(current, resampled, crate::clock::now_millis())
}


/// Law: the merge removes nothing and rewrites no description. The merged
/// entity types begin with the current ones, in order, each with its name,
/// description and baseline mark unchanged; only the added types follow.
pub proof fn law_merge_keeps_current_entities(
    current: Seq<EntityTypeProposal>,
    resampled: Seq<EntityTypeProposal>,
)
    ensures
        merged_entities(current, resampled).len() == current.len() + added_entities(
            current,
            resampled,
        ).len(),
        forall|i: int|
            0 <= i < current.len() ==> {
                let m = #[trigger] merged_entities(current, resampled)[i];
                &&& m.name == current[i].name
                &&& m.description == current[i].description
                &&& m.is_baseline == current[i].is_baseline
            },
        forall|n: Seq<char>|
            entity_names(current).contains(n) ==> #[trigger] entity_names(
                merged_entities(current, resampled),
            ).contains(n),
{
    let m = merged_entities(current, resampled);
    assert forall|n: Seq<char>| entity_names(current).contains(n) implies #[trigger] entity_names(
        m,
    ).contains(n) by {
        let j = choose|j: int| 0 <= j < entity_names(current).len() && entity_names(current)[j] == n;
        assert(entity_names(m)[j] == n);
    }
}

/// Law: a kept entity type's frequency is the frequency of the last
/// re-sampled type of the same name when there is one, and unchanged when
/// there is none.
pub proof fn law_merge_refreshes_frequency(
    current: Seq<EntityTypeProposal>,
    resampled: Seq<EntityTypeProposal>,
    i: int,
)
    requires
        0 <= i < current.len(),
    ensures
        entity_names(resampled).contains(current[i].name@) ==> exists|k: int|
            0 <= k < resampled.len() && resampled[k].name@ == current[i].name@
                && #[trigger] merged_entities(current, resampled)[i].frequency
                == resampled[k].frequency && forall|j: int|
                k < j < resampled.len() ==> resampled[j].name@ != current[i].name@,
        !entity_names(resampled).contains(current[i].name@) ==> merged_entities(
            current,
            resampled,
        )[i] == current[i],
{
    lemma_last_position(entity_names(resampled), current[i].name@);
    let m = merged_entities(current, resampled);
    match last_position(entity_names(resampled), current[i].name@) {
        Some(k) => {
            assert(resampled[k].name@ == entity_names(resampled)[k]);
            assert forall|j: int| k < j < resampled.len() implies resampled[j].name@
                != current[i].name@ by {
                assert(entity_names(resampled)[j] == resampled[j].name@);
            }
            assert(m[i].frequency == resampled[k].frequency);
        },
        None => {},
    }
}

/// Law: every re-sampled entity type name is in the merge, every merged name
/// comes from one of the two proposals, and the added types are exactly the
/// re-sampled types whose names the current proposal lacks.
pub proof fn law_merge_is_union_of_names(
    current: Seq<EntityTypeProposal>,
    resampled: Seq<EntityTypeProposal>,
)
    ensures
        forall|n: Seq<char>|
            #[trigger] entity_names(merged_entities(current, resampled)).contains(n) <==> (
            entity_names(current).contains(n) || entity_names(resampled).contains(n)),
        forall|e: EntityTypeProposal|
            #[trigger] added_entities(current, resampled).contains(e) <==> (resampled.contains(e)
                && !entity_names(current).contains(e.name@)),
{
    let m = merged_entities(current, resampled);
    let a = added_entities(current, resampled);
    let pred = |r: EntityTypeProposal| !entity_names(current).contains(r.name@);
    assert forall|e: EntityTypeProposal| #[trigger] a.contains(e) <==> (resampled.contains(e)
        && !entity_names(current).contains(e.name@)) by {
        if a.contains(e) {
            resampled.lemma_filter_contains_rev(pred, e);
            let j = choose|j: int| 0 <= j < a.len() && a[j] == e;
            resampled.lemma_filter_pred(pred, j);
        }
        if resampled.contains(e) && !entity_names(current).contains(e.name@) {
            let j = choose|j: int| 0 <= j < resampled.len() && resampled[j] == e;
            resampled.lemma_filter_contains(pred, j);
        }
    }
    law_merge_keeps_current_entities(current, resampled);
    assert forall|n: Seq<char>| #[trigger] entity_names(m).contains(n) <==> (entity_names(
        current,
    ).contains(n) || entity_names(resampled).contains(n)) by {
        if entity_names(m).contains(n) {
            let j = choose|j: int| 0 <= j < m.len() && entity_names(m)[j] == n;
            if j >= current.len() {
                let e = a[j - current.len()];
                assert(a.contains(e));
                let k = choose|k: int| 0 <= k < resampled.len() && resampled[k] == e;
                assert(entity_names(resampled)[k] == n);
            } else {
                assert(entity_names(current)[j] == n);
            }
        }
        if entity_names(resampled).contains(n) && !entity_names(current).contains(n) {
            let k = choose|k: int| 0 <= k < resampled.len() && entity_names(resampled)[k] == n;
            assert(resampled.contains(resampled[k]));
            assert(a.contains(resampled[k]));
            let j = choose|j: int| 0 <= j < a.len() && a[j] == resampled[k];
            assert(m[current.len() + j] == a[j]);
            assert(entity_names(m)[current.len() + j] == n);
        }
    }
}

/// Whether `c` is the conflict record of some current relation that conflicts.
pub open spec fn recorded_for_current(
    c: RelationConflict,
    current: Seq<RelationTypeProposal>,
    resampled: Seq<RelationTypeProposal>,
) -> bool {
    exists|i: int|
        0 <= i < current.len() && conflicts_with(current[i], resampled) && c == conflict_record(
            #[trigger] current[i],
            resampled,
        )
}

/// Law: current relation types are kept verbatim (endpoints and descriptions
/// never change), every re-sampled relation name is in the merge, and a
/// conflict is recorded exactly for the current relations whose last
/// re-sampled namesake has other endpoints, carrying the kept endpoints.
pub proof fn law_merge_keeps_current_relations(
    current: Seq<RelationTypeProposal>,
    resampled: Seq<RelationTypeProposal>,
)
    ensures
        merged_relations(current, resampled).take(current.len() as int) == current,
        forall|n: Seq<char>|
            #[trigger] relation_names(resampled).contains(n) ==> relation_names(
                merged_relations(current, resampled),
            ).contains(n),
        forall|k: int|
            0 <= k < relation_conflicts(current, resampled).len() ==> recorded_for_current(
                #[trigger] relation_conflicts(current, resampled)[k],
                current,
                resampled,
            ),
        forall|i: int|
            0 <= i < current.len() && #[trigger] conflicts_with(current[i], resampled)
                ==> relation_conflicts(current, resampled).contains(
                conflict_record(current[i], resampled),
            ),
{
    let m = merged_relations(current, resampled);
    let a = added_relations(current, resampled);
    assert(m.take(current.len() as int) =~= current);
    let pred = |r: RelationTypeProposal| !relation_names(current).contains(r.name@);
    assert forall|n: Seq<char>| #[trigger] relation_names(resampled).contains(n) implies relation_names(m).contains(n) by {
        let k = choose|k: int| 0 <= k < resampled.len() && relation_names(resampled)[k] == n;
        if relation_names(current).contains(n) {
            let j = choose|j: int| 0 <= j < current.len() && relation_names(current)[j] == n;
            assert(relation_names(m)[j] == n);
        } else {
            resampled.lemma_filter_contains(pred, k);
            let j = choose|j: int| 0 <= j < a.len() && a[j] == resampled[k];
            assert(relation_names(m)[current.len() + j] == n);
        }
    }
    let cp = |c: RelationTypeProposal| conflicts_with(c, resampled);
    let cg = |c: RelationTypeProposal| conflict_record(c, resampled);
    let fl = current.filter(cp);
    assert forall|k: int| 0 <= k < relation_conflicts(current, resampled).len() implies recorded_for_current(
        #[trigger] relation_conflicts(current, resampled)[k],
        current,
        resampled,
    ) by {
        assert(fl.contains(fl[k]));
        current.lemma_filter_contains_rev(cp, fl[k]);
        current.lemma_filter_pred(cp, k);
        let i = choose|i: int| 0 <= i < current.len() && current[i] == fl[k];
        assert(conflicts_with(current[i], resampled));
        assert(relation_conflicts(current, resampled)[k] == conflict_record(current[i], resampled));
    }
    assert forall|i: int| 0 <= i < current.len() && #[trigger] conflicts_with(current[i], resampled) implies relation_conflicts(current, resampled).contains(conflict_record(current[i], resampled)) by {
        current.lemma_filter_contains(cp, i);
        let j = choose|j: int| 0 <= j < fl.len() && fl[j] == current[i];
        assert(relation_conflicts(current, resampled)[j] == conflict_record(current[i], resampled));
    }
}


/// Law: a merge records a conflict exactly when a relation's endpoints
/// changed. Take a current relation `i` and its last re-sampled namesake `k`.
/// When `k` names another source type or another target type, the
/// conflicts hold a record of that name with the current endpoints kept and
/// `k`'s endpoints rejected; when `k` names the same pair, no conflict of
/// that name carries the current relation's endpoints.
pub proof fn law_merge_conflicts_on_changed_endpoints(
    current: SchemaProposal,
    resampled: SchemaProposal,
    now_ms: i64,
    m: MergeResult,
    i: int,
    k: int,
)
    requires
        is_merge_of(m, current, resampled, now_ms),
        0 <= i < current.relation_types@.len(),
        0 <= k < resampled.relation_types@.len(),
        resampled.relation_types@[k].name@ == current.relation_types@[i].name@,
        forall|j: int|
            k < j < resampled.relation_types@.len() ==> (#[trigger] resampled.relation_types@[j]).name@
                != current.relation_types@[i].name@,
    ensures
        ({
            let c = current.relation_types@[i];
            let r = resampled.relation_types@[k];
            (r.source_type@ != c.source_type@ || r.target_type@ != c.target_type@) ==> exists|j: int|
                0 <= j < m.conflicts@.len() && (#[trigger] m.conflicts@[j]).name@ == c.name@
                    && m.conflicts@[j].current_endpoints.0@ == c.source_type@
                    && m.conflicts@[j].current_endpoints.1@ == c.target_type@
                    && m.conflicts@[j].rejected_endpoints.0@ == r.source_type@
                    && m.conflicts@[j].rejected_endpoints.1@ == r.target_type@
        }),
        ({
            let c = current.relation_types@[i];
            let r = resampled.relation_types@[k];
            (r.source_type@ == c.source_type@ && r.target_type@ == c.target_type@) ==> forall|j: int|
                0 <= j < m.conflicts@.len() ==> !((#[trigger] m.conflicts@[j]).name@ == c.name@
                    && m.conflicts@[j].current_endpoints.0@ == c.source_type@
                    && m.conflicts@[j].current_endpoints.1@ == c.target_type@)
        }),
{
    let cur = current.relation_types@;
    let res = resampled.relation_types@;
    let c = cur[i];
    let r = res[k];
    let names = relation_names(res);
    lemma_last_position(names, c.name@);
    assert(names[k] == c.name@);
    let kk = last_position(names, c.name@)->0;
    assert(kk == k) by {
        if kk < k {
            assert(names[k] == c.name@);
        } else if kk > k {
            assert(names[kk] == res[kk].name@);
        }
    }
    law_merge_keeps_current_relations(cur, res);
    let confs = relation_conflicts(cur, res);
    if r.source_type@ != c.source_type@ || r.target_type@ != c.target_type@ {
        assert(conflicts_with(cur[i], res));
        assert(confs.contains(conflict_record(cur[i], res)));
        let j = choose|j: int| 0 <= j < confs.len() && confs[j] == conflict_record(cur[i], res);
        assert(m.conflicts@[j] == conflict_record(cur[i], res));
    } else {
        assert forall|j: int| 0 <= j < m.conflicts@.len() implies !((#[trigger] m.conflicts@[j]).name@
            == c.name@ && m.conflicts@[j].current_endpoints.0@ == c.source_type@
            && m.conflicts@[j].current_endpoints.1@ == c.target_type@) by {
            assert(recorded_for_current(confs[j], cur, res));
            let i2 = choose|i2: int|
                0 <= i2 < cur.len() && conflicts_with(cur[i2], res) && confs[j] == conflict_record(
                    #[trigger] cur[i2],
                    res,
                );
            if m.conflicts@[j].name@ == c.name@ {
                assert(cur[i2].name@ == c.name@);
                assert(last_position(names, cur[i2].name@) == Some(k));
            }
        }
    }
}

/// Whether no two entity types of `s` share a name.
pub open spec fn distinct_entity_names(s: Seq<EntityTypeProposal>) -> bool {
    forall|i: int, j: int| 0 <= i < j < s.len() ==> s[i].name@ != s[j].name@
}

/// Law: merging the same re-sampled proposal a second time changes nothing:
/// no entity type is added again and the entity and relation types stay as
/// they were. Stated for re-sampled proposals whose entity type names are
/// distinct (with a repeated name the second merge refreshes the earlier
/// duplicate's frequency from the later one).
pub proof fn law_merge_is_idempotent(
    current: Seq<EntityTypeProposal>,
    resampled: Seq<EntityTypeProposal>,
    current_relations: Seq<RelationTypeProposal>,
    resampled_relations: Seq<RelationTypeProposal>,
)
    requires
        distinct_entity_names(resampled),
    ensures
        added_entities(merged_entities(current, resampled), resampled).len() == 0,
        merged_entities(merged_entities(current, resampled), resampled) == merged_entities(
            current,
            resampled,
        ),
        added_relations(merged_relations(current_relations, resampled_relations), resampled_relations).len() == 0,
        merged_relations(merged_relations(current_relations, resampled_relations), resampled_relations)
            == merged_relations(current_relations, resampled_relations),
{
    let m = merged_entities(current, resampled);
    let a = added_entities(current, resampled);
    law_merge_is_union_of_names(current, resampled);
    law_merge_keeps_current_entities(current, resampled);
    let pred_m = |r: EntityTypeProposal| !entity_names(m).contains(r.name@);
    let a2 = added_entities(m, resampled);
    if a2.len() > 0 {
        resampled.lemma_filter_pred(pred_m, 0);
        assert(a2.contains(a2[0]));
        resampled.lemma_filter_contains_rev(pred_m, a2[0]);
        let k = choose|k: int| 0 <= k < resampled.len() && resampled[k] == a2[0];
        assert(entity_names(resampled)[k] == a2[0].name@);
        assert(entity_names(resampled).contains(a2[0].name@));
    }
    assert(a2 =~= Seq::<EntityTypeProposal>::empty());
    let f = |e: EntityTypeProposal| refreshed(e, resampled);
    assert forall|i: int| 0 <= i < m.len() implies #[trigger] m.map_values(f)[i] == m[i] by {
        if i < current.len() {
            lemma_last_position(entity_names(resampled), current[i].name@);
        } else {
            let e = a[i - current.len()];
            assert(a.contains(e));
            let pred_c = |r: EntityTypeProposal| !entity_names(current).contains(r.name@);
            resampled.lemma_filter_contains_rev(pred_c, e);
            let k = choose|k: int| 0 <= k < resampled.len() && resampled[k] == e;
            lemma_last_position(entity_names(resampled), e.name@);
            assert(entity_names(resampled)[k] == e.name@);
            let k2 = last_position(entity_names(resampled), e.name@)->0;
            assert(entity_names(resampled)[k2] == resampled[k2].name@);
            assert(k2 == k);
        }
    }
    assert(m.map_values(f) =~= m);
    assert(merged_entities(m, resampled) =~= m);

    let mr = merged_relations(current_relations, resampled_relations);
    law_merge_keeps_current_relations(current_relations, resampled_relations);
    let pred_r = |r: RelationTypeProposal| !relation_names(mr).contains(r.name@);
    let ar = added_relations(mr, resampled_relations);
    if ar.len() > 0 {
        resampled_relations.lemma_filter_pred(pred_r, 0);
        assert(ar.contains(ar[0]));
        resampled_relations.lemma_filter_contains_rev(pred_r, ar[0]);
        let k = choose|k: int| 0 <= k < resampled_relations.len() && resampled_relations[k] == ar[0];
        assert(relation_names(resampled_relations)[k] == ar[0].name@);
        assert(relation_names(resampled_relations).contains(ar[0].name@));
    }
    assert(ar =~= Seq::<RelationTypeProposal>::empty());
    assert(merged_relations(mr, resampled_relations) =~= mr);
}

} // verus!
