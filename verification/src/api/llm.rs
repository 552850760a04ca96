//! The provider and model records of the management API.

use vstd::prelude::*;
use crate::models::{provider_type_name, provider_type_of_word, Model as ModelRecord, Provider as ProviderRecord, ProviderType, State};
use crate::store::{is_new_model, is_new_provider};
use crate::text::{concat2, concat3, lowercase_of};

verus! {

/// What the API shows of a provider: not its key.
pub struct Provider {
    pub id: String,
    pub name: String,
    pub provider_type: String,
    pub base_url: String,
    pub enabled: bool,
    pub created_at: String,
}

/// What the API shows of a model, with the name of its provider.
pub struct Model {
    pub id: String,
    pub name: String,
    pub provider_id: String,
    pub provider_name: String,
    pub model_name: String,
    pub enabled: bool,
    pub created_at: String,
}

/// A request to create a provider; its type is given by name.
pub struct CreateProviderRequest {
    pub name: String,
    pub provider_type: String,
    pub base_url: String,
    pub api_key: String,
}

/// A request to create a model.
pub struct CreateModelRequest {
    pub name: String,
    pub provider_id: String,
    pub model_name: String,
}

/// The name of provider `id` in `state`, or the empty text where there is
/// none.
pub open spec fn provider_name_in(state: State, id: Seq<char>) -> Seq<char> {
    if state.providers@.contains_key(id) {
        state.providers@[id].name@
    } else {
        Seq::empty()
    }
}

impl Provider {
    /// What the API shows of provider `p`, stored under `id`.
    pub fn of(id: &str, p: &ProviderRecord) -> (r: Provider)
        ensures
            r.id@ == id@,
            r.name == p.name,
            r.provider_type@ == provider_type_name(p.provider_type),
            r.base_url == p.base_url,
            r.enabled == p.enabled,
            r.created_at == p.created_at,
    {
        Provider {
            id: id.to_owned(),
            name: p.name.clone(),
            provider_type: p.provider_type.as_str().to_owned(),
            base_url: p.base_url.clone(),
            enabled: p.enabled,
            created_at: p.created_at.clone(),
        }
    }
}

impl Model {
    /// What the API shows of model `m`, stored under `id`, with the name of
    /// its provider in `state`, or the empty text where that is gone.
    pub fn of(id: &str, m: &ModelRecord, state: &State) -> (r: Model)
        requires
            state.wf(),
        ensures
            r.id@ == id@,
            r.name == m.name,
            r.provider_id == m.provider_id,
            r.provider_name@ == provider_name_in(*state, m.provider_id@),
            r.model_name == m.model_name,
            r.enabled == m.enabled,
            r.created_at == m.created_at,
    {
        let provider_name = match state.providers.get(m.provider_id.as_str()) {
            Some(p) => p.name.clone(),
            None => String::new(),
        };
        Model {
            id: id.to_owned(),
            name: m.name.clone(),
            provider_id: m.provider_id.clone(),
            provider_name,
            model_name: m.model_name.clone(),
            enabled: m.enabled,
            created_at: m.created_at.clone(),
        }
    }
}

/// Whether `r` is what the API shows of provider `p` stored under `id`.
pub open spec fn shows_provider(r: Provider, id: Seq<char>, p: ProviderRecord) -> bool {
    &&& r.id@ == id
    &&& r.name@ == p.name@
    &&& r.provider_type@ == provider_type_name(p.provider_type)
    &&& r.base_url@ == p.base_url@
    &&& r.enabled == p.enabled
    &&& r.created_at@ == p.created_at@
}

/// Whether `r` is what the API shows of model `m` stored under `id`, in
/// `state`.
pub open spec fn shows_model(r: Model, id: Seq<char>, m: ModelRecord, state: State) -> bool {
    &&& r.id@ == id
    &&& r.name@ == m.name@
    &&& r.provider_id@ == m.provider_id@
    &&& r.provider_name@ == provider_name_in(state, m.provider_id@)
    &&& r.model_name@ == m.model_name@
    &&& r.enabled == m.enabled
    &&& r.created_at@ == m.created_at@
}

/// The providers, in the state's order, as the API shows them.
pub fn list_providers(state: &State) -> (v: Vec<Provider>)
    requires
        state.wf(),
    ensures
        v@.len() == state.providers.count(),
        forall|i: int|
            0 <= i < v@.len() ==> shows_provider(
                #[trigger] v@[i],
                state.providers.keys()[i],
                state.providers@[state.providers.keys()[i]],
            ),
{
    let n = state.providers.len();
    let mut v: Vec<Provider> = Vec::new();
    let mut i: usize = 0;
    while i < n
        invariant
            i <= n,
            n == state.providers.count(),
            state.wf(),
            v@.len() == i,
            forall|j: int|
                0 <= j < i ==> shows_provider(
                    #[trigger] v@[j],
                    state.providers.keys()[j],
                    state.providers@[state.providers.keys()[j]],
                ),
        decreases n - i,
    {
        proof {
            state.providers.lemma_index_of(i as int);
        }
        v.push(Provider::of(state.providers.key_at(i).as_str(), state.providers.value_at(i)));
        i = i + 1;
    }
    v
}

/// The models, in the state's order, as the API shows them.
pub fn list_models(state: &State) -> (v: Vec<Model>)
    requires
        state.wf(),
    ensures
        v@.len() == state.models.count(),
        forall|i: int|
            0 <= i < v@.len() ==> shows_model(
                #[trigger] v@[i],
                state.models.keys()[i],
                state.models@[state.models.keys()[i]],
                *state,
            ),
{
    let n = state.models.len();
    let mut v: Vec<Model> = Vec::new();
    let mut i: usize = 0;
    while i < n
        invariant
            i <= n,
            n == state.models.count(),
            state.wf(),
            v@.len() == i,
            forall|j: int|
                0 <= j < i ==> shows_model(
                    #[trigger] v@[j],
                    state.models.keys()[j],
                    state.models@[state.models.keys()[j]],
                    *state,
                ),
        decreases n - i,
    {
        proof {
            state.models.lemma_index_of(i as int);
        }
        v.push(Model::of(state.models.key_at(i).as_str(), state.models.value_at(i), state));
        i = i + 1;
    }
    v
}

/// Registers the provider `req` describes under `id`, stamped `now`, and
/// answers what the API shows of it; a provider type that names no kind,
/// whatever its case, is refused, changing nothing.
pub fn create_provider(state: &mut State, req: CreateProviderRequest, id: String, now: String) -> (r: Result<Provider, String>)
    requires
        old(state).wf(),
    ensures
        final(state).wf(),
        match provider_type_of_word(lowercase_of(req.provider_type@)) {
            None => {
                &&& r matches Err(m) && m@ == "Invalid provider type: "@ + req.provider_type@
                &&& *final(state) == *old(state)
            },
            Some(t) => {
                &&& final(state).same_except_providers(&*old(state))
                &&& final(state).providers@.contains_key(id@)
                &&& is_new_provider(final(state).providers@[id@], id@, req.name@, t, req.base_url@, req.api_key@, now@)
                &&& final(state).providers@.remove(id@) == old(state).providers@.remove(id@)
                &&& r matches Ok(p) && shows_provider(p, id@, final(state).providers@[id@])
            },
        },
{
    let t: ProviderType = match ProviderType::from_str(req.provider_type.as_str()) {
        Some(t) => t,
        None => return Err(concat2("Invalid provider type: ", req.provider_type.as_str())),
    };
    let shown = Provider {
        id: id.clone(),
        name: req.name.clone(),
        provider_type: t.as_str().to_owned(),
        base_url: req.base_url.clone(),
        enabled: true,
        created_at: now.clone(),
    };
    state.create_provider(id, req.name, t, req.base_url, req.api_key, now);
    Ok(shown)
}

/// Registers the model `req` describes under `id`, stamped `now`, and
/// answers what the API shows of it; an unknown provider is refused with
/// `Provider <id> not found`, changing nothing.
pub fn create_model(state: &mut State, req: CreateModelRequest, id: String, now: String) -> (r: Result<Model, String>)
    requires
        old(state).wf(),
    ensures
        final(state).wf(),
        !old(state).providers@.contains_key(req.provider_id@) ==> {
            &&& r matches Err(m) && m@ == "Provider "@ + req.provider_id@ + " not found"@
            &&& *final(state) == *old(state)
        },
        old(state).providers@.contains_key(req.provider_id@) ==> {
            &&& final(state).same_except_models(&*old(state))
            &&& final(state).models@.contains_key(id@)
            &&& is_new_model(final(state).models@[id@], id@, req.name@, req.provider_id@, req.model_name@, now@)
            &&& final(state).models@.remove(id@) == old(state).models@.remove(id@)
            &&& r matches Ok(m) && shows_model(m, id@, final(state).models@[id@], *final(state))
        },
{
    let provider_name = match state.providers.get(req.provider_id.as_str()) {
        Some(p) => p.name.clone(),
        None => return Err(concat3("Provider ", req.provider_id.as_str(), " not found")),
    };
    let shown = Model {
        id: id.clone(),
        name: req.name.clone(),
        provider_id: req.provider_id.clone(),
        provider_name,
        model_name: req.model_name.clone(),
        enabled: true,
        created_at: now.clone(),
    };
    state.put_model(id, req.name, req.provider_id, req.model_name, now);
    Ok(shown)
}

} // verus!
