//! Tenants: which model settings a new tenant takes from its request, how
//! an update changes a tenant, and the tenant answers' derived fields.

use vstd::prelude::*;

use crate::error::ApiError;
use crate::text::{owned, same_text};
use crate::workspaces::{plan_word, TenantPlan};

verus! {

/// How a new tenant's default language model is set.
#[derive(Debug, Clone, PartialEq, Eq)]
pub enum LlmChoice {
    /// The request names neither: the built-in default stays.
    Keep,
    /// The request names the model and its provider.
    Given { model: String, provider: String },
    /// The request names the model only: its provider is detected from it.
    DetectProvider { model: String },
}

/// The language-model choice of a tenant creation.
pub fn tenant_llm_choice(model: Option<String>, provider: Option<String>) -> (r: LlmChoice)
    ensures
        match (model, provider) {
            (Some(m), Some(p)) => r == LlmChoice::Given { model: m, provider: p },
            (Some(m), None) => r == LlmChoice::DetectProvider { model: m },
            (None, _) => r == LlmChoice::Keep,
        },
{
    match (model, provider) {
        (Some(m), Some(p)) => LlmChoice::Given { model: m, provider: p },
        (Some(m), None) => LlmChoice::DetectProvider { model: m },
        (None, _) => LlmChoice::Keep,
    }
}

/// How a new tenant's default embedding model is set.
#[derive(Debug, Clone, PartialEq, Eq)]
pub enum EmbeddingChoice {
    /// The request names no embedding model: the built-in default stays.
    Keep,
    /// The request names model, provider and dimension.
    Given { model: String, provider: String, dimension: usize },
    /// The request names the model but not all of provider and dimension:
    /// each one missing is detected from the model.
    Detect { model: String, provider: Option<String>, dimension: Option<usize> },
}

/// The embedding-model choice of a tenant creation.
pub fn tenant_embedding_choice(
    model: Option<String>,
    provider: Option<String>,
    dimension: Option<usize>,
) -> (r: EmbeddingChoice)
    ensures
        match (model, provider, dimension) {
            (Some(m), Some(p), Some(d)) => r == EmbeddingChoice::Given {
                model: m,
                provider: p,
                dimension: d,
            },
            (Some(m), p, d) => r == EmbeddingChoice::Detect { model: m, provider: p, dimension: d },
            (None, _, _) => r == EmbeddingChoice::Keep,
        },
{
    match (model, provider, dimension) {
        (Some(m), Some(p), Some(d)) => EmbeddingChoice::Given { model: m, provider: p, dimension: d },
        (Some(m), p, d) => EmbeddingChoice::Detect { model: m, provider: p, dimension: d },
        (None, _, _) => EmbeddingChoice::Keep,
    }
}

/// The name of the workspace created with every new tenant.
pub const DEFAULT_WORKSPACE_NAME: &'static str = "Default Workspace";

/// The plan a word names (`free`, `basic`, `pro`, `enterprise`), if any.
pub open spec fn plan_of_word(w: Seq<char>) -> Option<TenantPlan> {
    if w == "free"@ {
        Some(TenantPlan::Free)
    } else if w == "basic"@ {
        Some(TenantPlan::Basic)
    } else if w == "pro"@ {
        Some(TenantPlan::Pro)
    } else if w == "enterprise"@ {
        Some(TenantPlan::Enterprise)
    } else {
        None
    }
}

/// The plan a word names, if any.
pub fn plan_from_word(w: &str) -> (r: Option<TenantPlan>)
    ensures
        r == plan_of_word(w@),
{
    if same_text(w, "free") {
        Some(TenantPlan::Free)
    } else if same_text(w, "basic") {
        Some(TenantPlan::Basic)
    } else if same_text(w, "pro") {
        Some(TenantPlan::Pro)
    } else if same_text(w, "enterprise") {
        Some(TenantPlan::Enterprise)
    } else {
        None
    }
}

/// The fields of a tenant that an update may change.
#[derive(Debug, Clone, PartialEq, Eq)]
pub struct TenantFields {
    pub name: String,
    pub description: Option<String>,
    pub is_active: bool,
    pub plan: TenantPlan,
    /// Last change, epoch milliseconds.
    pub updated_at: i64,
}

/// An update of a tenant: each field given replaces the stored one.
#[derive(Debug, Clone, PartialEq, Eq, Default)]
pub struct UpdateTenantRequest {
    pub name: Option<String>,
    pub description: Option<String>,
    pub is_active: Option<bool>,
    pub plan: Option<String>,
}

/// The tenant after an update at `now_ms`: each given field replaces the
/// stored one, a plan word that names no plan leaves the plan as it was.
pub open spec fn tenant_updated(t: TenantFields, u: UpdateTenantRequest, now_ms: i64, r: TenantFields) -> bool {
    &&& r.name == (match u.name {
        Some(n) => n,
        None => t.name,
    })
    &&& r.description == (match u.description {
        Some(d) => Some(d),
        None => t.description,
    })
    &&& r.is_active == (match u.is_active {
        Some(a) => a,
        None => t.is_active,
    })
    &&& r.plan == (match u.plan {
        Some(p) => match plan_of_word(p@) {
            Some(q) => q,
            None => t.plan,
        },
        None => t.plan,
    })
    &&& r.updated_at == now_ms
}

/// Applies an update to a tenant at `now_ms`.
pub fn apply_tenant_update(t: TenantFields, u: UpdateTenantRequest, now_ms: i64) -> (r: TenantFields)
    ensures
        tenant_updated(t, u, now_ms, r),
{
    let TenantFields { name, description, is_active, plan, updated_at: _ } = t;
    let UpdateTenantRequest { name: new_name, description: new_description, is_active: new_active, plan: new_plan } = u;
    let plan = match new_plan {
        Some(p) => match plan_from_word(p.as_str()) {
            Some(q) => q,
            None => plan,
        },
        None => plan,
    };
    TenantFields {
        name: match new_name {
            Some(n) => n,
            None => name,
        },
        description: match new_description {
            Some(d) => Some(d),
            None => description,
        },
        is_active: match new_active {
            Some(a) => a,
            None => is_active,
        },
        plan,
        updated_at: now_ms,
    }
}

/// Law: an empty update changes nothing but the time stamp, and an update
/// naming a plan by its own word sets that plan.
pub proof fn law_tenant_update(t: TenantFields, u: UpdateTenantRequest, now_ms: i64, r: TenantFields)
    requires
        tenant_updated(t, u, now_ms, r),
    ensures
        (u.name is None && u.description is None && u.is_active is None && u.plan is None) ==> (
        r.name == t.name && r.description == t.description && r.is_active == t.is_active
            && r.plan == t.plan && r.updated_at == now_ms),
        forall|p: TenantPlan| u.plan is Some && u.plan->0@ == #[trigger] plan_word(p) ==> r.plan == p,
{
    reveal_strlit("free");
    reveal_strlit("basic");
    reveal_strlit("pro");
    reveal_strlit("enterprise");
    assert("free"@[0] != "basic"@[0] && "free"@[0] != "pro"@[0] && "free"@[0] != "enterprise"@[0]);
    assert("basic"@[0] != "pro"@[0] && "basic"@[0] != "enterprise"@[0]);
    assert("pro"@[0] != "enterprise"@[0]);
}

/// 404 for an unknown tenant.
pub fn tenant_not_found(tenant_id: &str) -> (e: ApiError)
    ensures
        e is NotFound && e->NotFound_0@ == "Tenant "@ + tenant_id@ + " not found"@,
{
    let mut m = owned("Tenant ");
    m.append(tenant_id);
    m.append(" not found");
    ApiError::NotFound(m)
}

} // verus!
