//! Extraction batches: where a batch's track record and results are kept,
//! which track states are final, the model allow-list, and what a submit or
//! a status poll does given the stored track.

use vstd::prelude::*;

use crate::batch_track_state::{CANCELLED, COMPLETED, EXPIRED, FAILED, PENDING_WITHOUT_BATCH_ID, SUBMITTED};
use crate::error::ApiError;
use crate::ids::{uuid_string, uuid_text, uuid_text_char};
use crate::text::{begins_with, chars_of, concat, owned, same_text, take_chars};

verus! {

broadcast use {vstd::seq_lib::group_filter_ensures, vstd::seq::Seq::lemma_filter_push};

/// Prefix of the track record keys.
pub const TRACK_KEY_PREFIX: &'static str = "extraction_batch_track:";

/// Prefix of the results record keys.
pub const RESULTS_KEY_PREFIX: &'static str = "extraction_batch_results:";

/// Whether a track state is final.
pub open spec fn terminal_state(s: Seq<char>) -> bool {
    s == COMPLETED@ || s == FAILED@ || s == EXPIRED@ || s == CANCELLED@
}

/// Whether a track state is final: completed, failed, expired or cancelled.
pub fn is_terminal_batch_state(state: &str) -> (r: bool)
    ensures
        r == terminal_state(state@),
{
    same_text(state, COMPLETED) || same_text(state, FAILED) || same_text(state, EXPIRED)
        || same_text(state, CANCELLED)
}

/// Law: the six track states are distinct, and only the last four are final.
pub proof fn law_track_states_distinct()
    ensures
        PENDING_WITHOUT_BATCH_ID@ != SUBMITTED@,
        !terminal_state(PENDING_WITHOUT_BATCH_ID@),
        !terminal_state(SUBMITTED@),
        terminal_state(COMPLETED@) && terminal_state(FAILED@) && terminal_state(EXPIRED@)
            && terminal_state(CANCELLED@),
        COMPLETED@ != FAILED@ && COMPLETED@ != EXPIRED@ && COMPLETED@ != CANCELLED@,
        FAILED@ != EXPIRED@ && FAILED@ != CANCELLED@ && EXPIRED@ != CANCELLED@,
{
    reveal_strlit("pending_without_batch_id");
    reveal_strlit("submitted");
    reveal_strlit("completed");
    reveal_strlit("failed");
    reveal_strlit("expired");
    reveal_strlit("cancelled");
    assert(PENDING_WITHOUT_BATCH_ID@[0] != SUBMITTED@[0]);
    assert(PENDING_WITHOUT_BATCH_ID@[0] != COMPLETED@[0]);
    assert(PENDING_WITHOUT_BATCH_ID@[0] != FAILED@[0]);
    assert(PENDING_WITHOUT_BATCH_ID@[0] != EXPIRED@[0]);
    assert(PENDING_WITHOUT_BATCH_ID@[0] != CANCELLED@[0]);
    assert(SUBMITTED@[0] != COMPLETED@[0]);
    assert(SUBMITTED@[0] != FAILED@[0]);
    assert(SUBMITTED@[0] != EXPIRED@[0]);
    assert(SUBMITTED@[0] != CANCELLED@[0]);
    assert(COMPLETED@[0] != FAILED@[0]);
    assert(COMPLETED@[0] != EXPIRED@[0]);
    assert(COMPLETED@[1] != CANCELLED@[1]);
    assert(FAILED@[0] != EXPIRED@[0]);
    assert(FAILED@[0] != CANCELLED@[0]);
    assert(EXPIRED@[0] != CANCELLED@[0]);
}

/// The track key of a workspace's (given as text) and a namespace's batch.
pub open spec fn track_key_of(workspace: Seq<char>, namespace: Seq<char>) -> Seq<char> {
    TRACK_KEY_PREFIX@ + workspace + ":"@ + namespace
}

/// The key of the batch track record of `{workspace_id, namespace}`: one
/// record per pair, which makes submitting idempotent.
pub fn extraction_batch_track_key(workspace_id: u128, namespace: &str) -> (r: String)
    ensures
        r@ == track_key_of(uuid_string(workspace_id), namespace@),
        forall|i: int|
            0 <= i < uuid_string(workspace_id).len() ==> uuid_text_char(
                #[trigger] uuid_string(workspace_id)[i],
            ),
{
    let ws = uuid_text(workspace_id);
    let mut r = owned(TRACK_KEY_PREFIX);
    r.append(ws.as_str());
    r.append(":");
    r.append(namespace);
    r
}

/// The key of the results record of a batch track.
pub open spec fn results_key_of(track_id: Seq<char>) -> Seq<char> {
    RESULTS_KEY_PREFIX@ + track_id
}

/// The key under which a finished batch's results are stored.
pub fn extraction_batch_results_key(track_id: &str) -> (r: String)
    ensures
        r@ == results_key_of(track_id@),
{
    concat(RESULTS_KEY_PREFIX, track_id)
}

/// The prefix of the track keys of a workspace's batches.
pub fn workspace_track_prefix(workspace_id: u128) -> (r: String)
    ensures
        r@ == TRACK_KEY_PREFIX@ + uuid_string(workspace_id),
{
    concat(TRACK_KEY_PREFIX, uuid_text(workspace_id).as_str())
}

/// The keys among `keys` that start with `prefix`, in order.
pub open spec fn keys_with_prefix(keys: Seq<String>, prefix: Seq<char>) -> Seq<String> {
    keys.filter(|k: String| begins_with(k@, prefix))
}

/// The track keys of a workspace's batches among the store's `keys`.
pub fn workspace_track_keys(keys: &Vec<String>, workspace_id: u128) -> (r: Vec<String>)
    ensures
        r@ == keys_with_prefix(keys@, TRACK_KEY_PREFIX@ + uuid_string(workspace_id)),
{
    let prefix = workspace_track_prefix(workspace_id);
    let mut r: Vec<String> = Vec::new();
    let mut i: usize = 0;
    while i < keys.len()
        invariant
            i <= keys.len(),
            prefix@ == TRACK_KEY_PREFIX@ + uuid_string(workspace_id),
            r@ == keys_with_prefix(keys@.take(i as int), prefix@),
        decreases keys.len() - i,
    {
        assert(keys@.take(i + 1) == keys@.take(i as int).push(keys@[i as int]));
        if begins_with_text(keys[i].as_str(), prefix.as_str()) {
            r.push(keys[i].clone());
        }
        i = i + 1;
    }
    assert(keys@.take(keys.len() as int) == keys@);
    r
}

fn begins_with_text(s: &str, prefix: &str) -> (r: bool)
    ensures
        r == begins_with(s@, prefix@),
{
    crate::text::starts_with(s, prefix)
}

/// Whether one of a workspace's track records (their `batch_id` fields,
/// `None` where unreadable or absent) names `batch_id`.
pub fn batch_recorded(stored_batch_ids: &Vec<Option<String>>, batch_id: &str) -> (r: bool)
    ensures
        r == exists|i: int|
            0 <= i < stored_batch_ids@.len() && #[trigger] stored_batch_ids@[i] is Some
                && stored_batch_ids@[i]->0@ == batch_id@,
{
    let mut i: usize = 0;
    while i < stored_batch_ids.len()
        invariant
            i <= stored_batch_ids.len(),
            forall|j: int|
                0 <= j < i ==> !(#[trigger] stored_batch_ids@[j] is Some
                    && stored_batch_ids@[j]->0@ == batch_id@),
        decreases stored_batch_ids.len() - i,
    {
        match &stored_batch_ids[i] {
            Some(b) => {
                if same_text(b.as_str(), batch_id) {
                    return true;
                }
            },
            None => {},
        }
        i = i + 1;
    }
    false
}

/// Law: distinct `{workspace, namespace}` pairs have distinct track keys,
/// for workspace texts without `:` (as UUID texts are).
pub proof fn law_track_key_injective(ws1: Seq<char>, ns1: Seq<char>, ws2: Seq<char>, ns2: Seq<char>)
    requires
        forall|i: int| 0 <= i < ws1.len() ==> #[trigger] ws1[i] != ':',
        forall|i: int| 0 <= i < ws2.len() ==> #[trigger] ws2[i] != ':',
        track_key_of(ws1, ns1) == track_key_of(ws2, ns2),
    ensures
        ws1 == ws2,
        ns1 == ns2,
{
    reveal_strlit(":");
    let p = TRACK_KEY_PREFIX@;
    let k1 = track_key_of(ws1, ns1);
    let k2 = track_key_of(ws2, ns2);
    assert(k1 == p + ws1 + seq![':'] + ns1);
    assert(k2 == p + ws2 + seq![':'] + ns2);
    if ws1.len() < ws2.len() {
        assert(k1[(p.len() + ws1.len()) as int] == ':');
        assert(k2[(p.len() + ws1.len()) as int] == ws2[ws1.len() as int]);
    } else if ws2.len() < ws1.len() {
        assert(k2[(p.len() + ws2.len()) as int] == ':');
        assert(k1[(p.len() + ws2.len()) as int] == ws1[ws2.len() as int]);
    } else {
        assert forall|i: int| 0 <= i < ws1.len() implies ws1[i] == ws2[i] by {
            assert(k1[p.len() + i] == ws1[i]);
            assert(k2[p.len() + i] == ws2[i]);
        }
        assert(ws1 =~= ws2);
        assert forall|i: int| 0 <= i < ns1.len() implies ns1[i] == ns2[i] by {
            assert(k1[p.len() + ws1.len() + 1 + i] == ns1[i]);
            assert(k2[p.len() + ws2.len() + 1 + i] == ns2[i]);
        }
        assert(ns1.len() == ns2.len());
        assert(ns1 =~= ns2);
    }
}

/// Law: a results key is never a track key, and it holds the track id.
pub proof fn law_results_key_distinct(track_id: Seq<char>, ws: Seq<char>, ns: Seq<char>)
    ensures
        results_key_of(track_id) != track_key_of(ws, ns),
        results_key_of(track_id).skip(RESULTS_KEY_PREFIX@.len() as int) == track_id,
{
    reveal_strlit("extraction_batch_track:");
    reveal_strlit("extraction_batch_results:");
    assert(results_key_of(track_id)[17] != track_key_of(ws, ns)[17]);
    assert(results_key_of(track_id).skip(RESULTS_KEY_PREFIX@.len() as int) =~= track_id);
}

/// Longest extraction instructions kept, in characters.
pub const MAX_EXTRACTION_INSTRUCTIONS_LEN: usize = 2000;

/// Extraction instructions capped at 2000 characters: unchanged when they
/// fit, else their first 2000 characters.
pub fn cap_extraction_instructions(instructions: &str) -> (r: String)
    ensures
        instructions@.len() <= MAX_EXTRACTION_INSTRUCTIONS_LEN ==> r@ == instructions@,
        instructions@.len() > MAX_EXTRACTION_INSTRUCTIONS_LEN ==> r@ == instructions@.take(
            MAX_EXTRACTION_INSTRUCTIONS_LEN as int,
        ),
{
    if chars_of(instructions).len() > MAX_EXTRACTION_INSTRUCTIONS_LEN {
        take_chars(instructions, MAX_EXTRACTION_INSTRUCTIONS_LEN)
    } else {
        owned(instructions)
    }
}

/// The model used when none is asked for.
pub const DEFAULT_BATCH_MODEL: &'static str = "gpt-4.1-mini";

/// The models a batch may be submitted with.
pub open spec fn approved_models() -> Seq<Seq<char>> {
    seq!["gpt-4.1-mini"@, "gpt-4.1"@, "gpt-4o-mini"@, "gpt-4o"@]
}

/// The models a batch may be submitted with, in order.
pub fn approved_batch_models() -> (r: Vec<&'static str>)
    ensures
        r@.map_values(|m: &str| m@) == approved_models(),
{
    let mut r: Vec<&'static str> = Vec::new();
    r.push("gpt-4.1-mini");
    r.push("gpt-4.1");
    r.push("gpt-4o-mini");
    r.push("gpt-4o");
    assert(r@.map_values(|m: &str| m@) =~= approved_models());
    r
}

/// Whether a model is on the allow-list.
pub fn is_approved_batch_model(model: &str) -> (r: bool)
    ensures
        r == approved_models().contains(model@),
{
    let models = approved_batch_models();
    let mut i: usize = 0;
    while i < models.len()
        invariant
            i <= models.len(),
            models@.map_values(|m: &str| m@) == approved_models(),
            forall|j: int| 0 <= j < i ==> approved_models()[j] != model@,
        decreases models.len() - i,
    {
        assert(approved_models()[i as int] == models@[i as int]@);
        if same_text(models[i], model) {
            assert(approved_models()[i as int] == model@);
            return true;
        }
        i = i + 1;
    }
    false
}

/// Law: the default model is on the allow-list and no listed model is empty.
pub proof fn law_default_model_approved()
    ensures
        approved_models().contains(DEFAULT_BATCH_MODEL@),
        forall|i: int| 0 <= i < approved_models().len() ==> (#[trigger] approved_models()[i]).len() > 0,
{
    reveal_strlit("gpt-4.1-mini");
    reveal_strlit("gpt-4.1");
    reveal_strlit("gpt-4o-mini");
    reveal_strlit("gpt-4o");
    assert(approved_models()[0] == DEFAULT_BATCH_MODEL@);
}

/// The allow-list joined by `, `.
pub open spec fn allowed_list_text() -> Seq<char> {
    "gpt-4.1-mini, gpt-4.1, gpt-4o-mini, gpt-4o"@
}

/// The model of a submit: the asked one (the default when none), which must
/// be on the allow-list (else 422).
pub fn check_batch_model(model_id: Option<String>) -> (r: Result<String, ApiError>)
    ensures
        ({
            let m = match model_id {
                Some(x) => x@,
                None => DEFAULT_BATCH_MODEL@,
            };
            &&& approved_models().contains(m) ==> r is Ok && r->Ok_0@ == m
            &&& !approved_models().contains(m) ==> r is Err && r->Err_0 is ValidationError
                && r->Err_0->ValidationError_0@ == "model_id '"@ + m
                + "' is not in the approved batch model list. Allowed values: "@
                + allowed_list_text()
        }),
{
    let model = match model_id {
        Some(x) => x,
        None => owned(DEFAULT_BATCH_MODEL),
    };
    if is_approved_batch_model(model.as_str()) {
        Ok(model)
    } else {
        let mut m = owned("model_id '");
        m.append(model.as_str());
        m.append("' is not in the approved batch model list. Allowed values: ");
        m.append("gpt-4.1-mini, gpt-4.1, gpt-4o-mini, gpt-4o");
        Err(ApiError::ValidationError(m))
    }
}

/// 422 while the workspace schema gate is closed.
pub fn require_gate_for_submit(gate_status: &str) -> (r: Result<(), ApiError>)
    ensures
        gate_status@ == "extracting"@ ==> r is Ok,
        gate_status@ != "extracting"@ ==> r is Err && r->Err_0 is ValidationError
            && r->Err_0->ValidationError_0@
            == "Workspace schema is not approved — cannot submit extraction batch. Approve the namespace schema first to transition documents to 'extracting'."@,
{
    if same_text(gate_status, "extracting") {
        Ok(())
    } else {
        Err(
            ApiError::ValidationError(
                owned(
                    "Workspace schema is not approved — cannot submit extraction batch. Approve the namespace schema first to transition documents to 'extracting'.",
                ),
            ),
        )
    }
}

/// What a submit does, given the track record already stored for the pair.
#[derive(Debug, Clone, PartialEq, Eq)]
pub enum SubmitPlan {
    /// A submitted batch exists: answer with it (idempotent re-call).
    ReturnExisting { track_id: String, batch_id: String },
    /// A submit was interrupted before the batch id was stored: re-drive it
    /// under the same track id.
    Recover { track_id: String },
    /// Start a fresh track.
    Fresh,
}

/// A stored track record, as far as a submit reads it.
#[derive(Debug, Clone, PartialEq, Eq)]
pub struct StoredTrack {
    /// The `state` field (empty when absent).
    pub state: String,
    /// The `track_id` field (empty when absent).
    pub track_id: String,
    /// The `batch_id` field, when present.
    pub batch_id: Option<String>,
}

/// The submit rule: a non-final stored track that was submitted with a
/// batch id is returned as is; one left pending is re-driven; a final one,
/// a submitted one without a batch id, or none starts a fresh track.
pub open spec fn submit_rule(existing: Option<StoredTrack>, p: SubmitPlan) -> bool {
    match existing {
        Some(t) => if !terminal_state(t.state@) && t.state@ == SUBMITTED@ && t.batch_id is Some {
            p is ReturnExisting && p->ReturnExisting_track_id == t.track_id
                && p->ReturnExisting_batch_id == t.batch_id->0
        } else if !terminal_state(t.state@) && t.state@ == PENDING_WITHOUT_BATCH_ID@ {
            p is Recover && p->Recover_track_id == t.track_id
        } else {
            p is Fresh
        },
        None => p is Fresh,
    }
}

/// What a submit does, given the track record already stored, if any.
pub fn submit_plan(existing: Option<StoredTrack>) -> (p: SubmitPlan)
    ensures
        submit_rule(existing, p),
{
    proof {
        reveal_strlit("submitted");
        reveal_strlit("pending_without_batch_id");
        assert(SUBMITTED@[0] != PENDING_WITHOUT_BATCH_ID@[0]);
    }
    match existing {
        None => SubmitPlan::Fresh,
        Some(t) => {
            if is_terminal_batch_state(t.state.as_str()) {
                SubmitPlan::Fresh
            } else if same_text(t.state.as_str(), SUBMITTED) {
                match t.batch_id {
                    Some(b) => SubmitPlan::ReturnExisting { track_id: t.track_id, batch_id: b },
                    None => SubmitPlan::Fresh,
                }
            } else if same_text(t.state.as_str(), PENDING_WITHOUT_BATCH_ID) {
                SubmitPlan::Recover { track_id: t.track_id }
            } else {
                SubmitPlan::Fresh
            }
        },
    }
}

/// Whether `t` is the track record a submit stores once its batch was
/// created: state `submitted`, with the submit's track id and batch id.
pub open spec fn submitted_record(t: StoredTrack, track_id: Seq<char>, batch_id: Seq<char>) -> bool {
    t.state@ == SUBMITTED@ && t.track_id@ == track_id && t.batch_id is Some && t.batch_id->0@
        == batch_id
}

/// The track record a submit stores, under the key of its workspace and
/// namespace, once its batch was created; the submit answers with the same
/// track id and batch id.
pub fn submitted_track(track_id: &str, batch_id: &str) -> (t: StoredTrack)
    ensures
        submitted_record(t, track_id@, batch_id@),
{
    StoredTrack { state: owned(SUBMITTED), track_id: owned(track_id), batch_id: Some(owned(batch_id)) }
}

/// Law: a second submit returns the first one's batch. A first submit that
/// answered with `track_id` and `batch_id` stored [`submitted_track`] of
/// them under its workspace and namespace; while that record stands, a
/// second submit for the same workspace and namespace reads it and answers
/// with the same track id and batch id, starting and re-driving nothing.
pub proof fn law_second_submit_returns_first(
    track_id: Seq<char>,
    batch_id: Seq<char>,
    stored: StoredTrack,
    p: SubmitPlan,
)
    requires
        submitted_record(stored, track_id, batch_id),
        submit_rule(Some(stored), p),
    ensures
        p is ReturnExisting,
        p->ReturnExisting_track_id@ == track_id,
        p->ReturnExisting_batch_id@ == batch_id,
{
    reveal_strlit("submitted");
    reveal_strlit("completed");
    reveal_strlit("failed");
    reveal_strlit("expired");
    reveal_strlit("cancelled");
    assert(SUBMITTED@[0] != COMPLETED@[0]);
    assert(SUBMITTED@[0] != FAILED@[0]);
    assert(SUBMITTED@[0] != EXPIRED@[0]);
    assert(SUBMITTED@[0] != CANCELLED@[0]);
}

/// Whether a status poll should ask the provider: only for a non-final
/// track that has a batch id; otherwise the stored state is reported.
pub fn should_poll_batch(state: &str, batch_id: &Option<String>) -> (r: bool)
    ensures
        r == (!terminal_state(state@) && batch_id is Some),
{
    !is_terminal_batch_state(state) && batch_id.is_some()
}

/// The final state recorded for a batch that ended without success, from the
/// lowercase name of the provider's status.
pub fn terminal_failure_state(status_word: &str) -> (r: &'static str)
    ensures
        r@ == (if status_word@ == "expired"@ {
            EXPIRED@
        } else if status_word@ == "cancelled"@ {
            CANCELLED@
        } else {
            FAILED@
        }),
{
    if same_text(status_word, "expired") {
        EXPIRED
    } else if same_text(status_word, "cancelled") {
        CANCELLED
    } else {
        FAILED
    }
}

/// The text of an optional field, empty when absent.
pub open spec fn text_or_empty(o: Option<String>) -> Seq<char> {
    match o {
        Some(s) => s@,
        None => Seq::empty(),
    }
}

/// The position of the first track record whose `track_id` field (empty
/// when absent) is `track_id`.
pub fn find_track(record_track_ids: &Vec<Option<String>>, track_id: &str) -> (r: Option<usize>)
    ensures
        match r {
            Some(i) => i < record_track_ids@.len() && text_or_empty(record_track_ids@[i as int])
                == track_id@ && forall|j: int|
                0 <= j < i ==> text_or_empty(#[trigger] record_track_ids@[j]) != track_id@,
            None => forall|j: int|
                0 <= j < record_track_ids@.len() ==> text_or_empty(#[trigger] record_track_ids@[j])
                    != track_id@,
        },
{
    let mut i: usize = 0;
    while i < record_track_ids.len()
        invariant
            i <= record_track_ids.len(),
            forall|j: int| 0 <= j < i ==> text_or_empty(#[trigger] record_track_ids@[j]) != track_id@,
        decreases record_track_ids.len() - i,
    {
        let hit = match &record_track_ids[i] {
            Some(t) => same_text(t.as_str(), track_id),
            None => crate::text::chars_of(track_id).len() == 0,
        };
        proof {
            if track_id@.len() == 0 {
                assert(track_id@ =~= Seq::<char>::empty());
            }
        }
        if hit {
            return Some(i);
        }
        i = i + 1;
    }
    None
}

/// A track record's state, `pending_without_batch_id` when it has none.
pub fn track_state_or_pending(state: Option<String>) -> (r: String)
    ensures
        match state {
            Some(s) => r@ == s@,
            None => r@ == PENDING_WITHOUT_BATCH_ID@,
        },
{
    match state {
        Some(s) => s,
        None => owned(PENDING_WITHOUT_BATCH_ID),
    }
}

/// What polling the provider about a submitted batch leads to.
#[derive(Debug, Clone, PartialEq, Eq)]
pub enum PollResult {
    /// The batch is still running: the stored state stands.
    Unchanged,
    /// It succeeded (its results, if any, were stored): now `completed`.
    Completed,
    /// It succeeded but its results could not be fetched: now `failed`,
    /// with this error recorded.
    DownloadFailed(String),
    /// It ended without success, in this final state.
    Ended(String),
}

/// The poll rule: a batch still running leaves the state; one that
/// succeeded completes unless fetching its results failed (`download_error`);
/// one that ended otherwise takes the final state its status names.
pub fn poll_result(terminal: bool, success: bool, status_word: &str, download_error: Option<String>) -> (r:
    PollResult)
    ensures
        !terminal ==> r == PollResult::Unchanged,
        terminal && success && download_error is None ==> r == PollResult::Completed,
        terminal && success && download_error is Some ==> r is DownloadFailed
            && r->DownloadFailed_0@ == "Failed to download results: "@ + download_error->0@,
        terminal && !success ==> r is Ended && r->Ended_0@ == (if status_word@ == "expired"@ {
            EXPIRED@
        } else if status_word@ == "cancelled"@ {
            CANCELLED@
        } else {
            FAILED@
        }),
{
    if !terminal {
        PollResult::Unchanged
    } else if success {
        match download_error {
            None => PollResult::Completed,
            Some(e) => {
                let mut m = owned("Failed to download results: ");
                m.append(e.as_str());
                PollResult::DownloadFailed(m)
            },
        }
    } else {
        PollResult::Ended(owned(terminal_failure_state(status_word)))
    }
}

/// The state a status poll reports after `result`.
pub fn reported_state(current: &str, result: &PollResult) -> (r: String)
    ensures
        match *result {
            PollResult::Unchanged => r@ == current@,
            PollResult::Completed => r@ == COMPLETED@,
            PollResult::DownloadFailed(_) => r@ == FAILED@,
            PollResult::Ended(s) => r@ == s@,
        },
{
    match result {
        PollResult::Unchanged => owned(current),
        PollResult::Completed => owned(COMPLETED),
        PollResult::DownloadFailed(_) => owned(FAILED),
        PollResult::Ended(s) => s.clone(),
    }
}

/// 404 for a batch that no track record of the workspace names.
pub fn batch_not_found(batch_id: &str, workspace_id: &str) -> (e: ApiError)
    ensures
        e is NotFound && e->NotFound_0@ == "Batch "@ + batch_id@ + " not found for workspace "@
            + workspace_id@,
{
    let mut m = owned("Batch ");
    m.append(batch_id);
    m.append(" not found for workspace ");
    m.append(workspace_id);
    ApiError::NotFound(m)
}

} // verus!
