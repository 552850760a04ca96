//! The LLM proxy: agents call it with an API key of the manager; it finds
//! the provider the key belongs to and forwards the chat completion to it.

use vstd::prelude::*;
use crate::models::{ApiKey, Provider, State};
use crate::store::is_new_api_key;
use crate::paths::{trim_end, trim_end_matches};
use crate::text::{concat2, concat3, has_prefix, str_eq, string_of, substring};

verus! {

/// One message of a chat.
pub struct ChatMessage {
    pub role: String,
    pub content: String,
}

/// One answer of a chat completion.
pub struct ChatCompletionChoice {
    pub index: u32,
    pub message: ChatMessage,
    pub finish_reason: String,
}

/// The tokens a chat completion used.
pub struct ChatCompletionUsage {
    pub prompt_tokens: u32,
    pub completion_tokens: u32,
    pub total_tokens: u32,
}

/// A chat completion.
pub struct ChatCompletionResponse {
    pub id: String,
    pub object: String,
    pub created: u64,
    pub model: String,
    pub choices: Vec<ChatCompletionChoice>,
    pub usage: ChatCompletionUsage,
}

/// Why the proxy refused or failed a request.
#[derive(Debug)]
pub enum ProxyError {
    MissingAuth,
    InvalidAuthFormat,
    InvalidApiKey,
    ProviderDisabled(String),
    UpstreamError(String),
}

/// Where a completion is forwarded to, and the authorization it is
/// forwarded with.
pub struct Upstream {
    pub url: String,
    pub authorization: String,
    pub provider_id: String,
}

/// The SHA-256 digest of `bytes`.
pub uninterp spec fn sha256_digest(bytes: Seq<u8>) -> Seq<u8>;

/// The SHA-256 digest of `bytes`, as `sha2::Sha256` computes it: 32 bytes,
/// named by `sha256_digest`.
#[verifier::external_body]
fn sha256(bytes: &[u8]) -> (d: Vec<u8>)
    ensures
        d@ == sha256_digest(bytes@),
        d@.len() == 32,
{
    <sha2::Sha256 as sha2::Digest>::digest(bytes).to_vec()
}

/// The lowercase hexadecimal digit of a value below sixteen.
pub open spec fn hex_char(d: nat) -> char {
    if d == 0 { '0' } else if d == 1 { '1' } else if d == 2 { '2' } else if d == 3 { '3' }
    else if d == 4 { '4' } else if d == 5 { '5' } else if d == 6 { '6' } else if d == 7 { '7' }
    else if d == 8 { '8' } else if d == 9 { '9' } else if d == 10 { 'a' } else if d == 11 { 'b' }
    else if d == 12 { 'c' } else if d == 13 { 'd' } else if d == 14 { 'e' } else { 'f' }
}

/// `bytes` in lowercase hexadecimal, two digits per byte.
pub open spec fn hex_lower(bytes: Seq<u8>) -> Seq<char>
    decreases bytes.len(),
{
    if bytes.len() == 0 {
        Seq::empty()
    } else {
        hex_lower(bytes.drop_last()) + seq![hex_char((bytes.last() / 16) as nat), hex_char((bytes.last() % 16) as nat)]
    }
}

fn hex_digit(d: u8) -> (c: char)
    requires
        d < 16,
    ensures
        c == hex_char(d as nat),
{
    if d == 0 { '0' } else if d == 1 { '1' } else if d == 2 { '2' } else if d == 3 { '3' }
    else if d == 4 { '4' } else if d == 5 { '5' } else if d == 6 { '6' } else if d == 7 { '7' }
    else if d == 8 { '8' } else if d == 9 { '9' } else if d == 10 { 'a' } else if d == 11 { 'b' }
    else if d == 12 { 'c' } else if d == 13 { 'd' } else if d == 14 { 'e' } else { 'f' }
}

/// Writes `bytes` in lowercase hexadecimal.
pub fn to_hex(bytes: &Vec<u8>) -> (s: String)
    ensures
        s@ == hex_lower(bytes@),
{
    let mut v: Vec<char> = Vec::new();
    let mut i: usize = 0;
    while i < bytes.len()
        invariant
            i <= bytes@.len(),
            v@ == hex_lower(bytes@.take(i as int)),
        decreases bytes@.len() - i,
    {
        let b = bytes[i];
        v.push(hex_digit(b / 16));
        v.push(hex_digit(b % 16));
        proof {
            assert(bytes@.take(i + 1).drop_last() =~= bytes@.take(i as int));
            assert(bytes@.take(i + 1).last() == b);
            assert(v@ =~= hex_lower(bytes@.take(i + 1)));
        }
        i = i + 1;
    }
    assert(bytes@.take(bytes@.len() as int) =~= bytes@);
    string_of(&v)
}

/// What is stored of an API key: the hexadecimal SHA-256 digest of its UTF-8
/// bytes.
pub open spec fn key_hash_of(key: Seq<char>) -> Seq<char> {
    hex_lower(sha256_digest(vstd::utf8::encode_utf8(key)))
}

/// The hash under which API key `key` is stored.
pub fn hash_key(key: &str) -> (h: String)
    ensures
        h@ == key_hash_of(key@),
        h@.len() == 64,
{
    let d = sha256(key.as_bytes());
    let h = to_hex(&d);
    proof {
        lemma_hex_len(d@);
    }
    h
}

proof fn lemma_hex_len(b: Seq<u8>)
    ensures
        hex_lower(b).len() == 2 * b.len(),
    decreases b.len(),
{
    if b.len() > 0 {
        lemma_hex_len(b.drop_last());
    }
}

/// The API key made of `uuid` (a fresh random UUID): `zsp-` and the UUID.
pub fn generate_api_key(uuid: &str) -> (k: String)
    ensures
        k@ == "zsp-"@ + uuid@,
{
    concat2("zsp-", uuid)
}

/// The position of the first API key of `es`, at or after `i`, stored under
/// hash `h`.
pub open spec fn key_with_hash_from(es: Seq<(Seq<char>, crate::models::ApiKey)>, h: Seq<char>, i: int) -> Option<int>
    decreases es.len() - i,
{
    if i < 0 || i >= es.len() {
        None
    } else if es[i].1.key_hash@ == h {
        Some(i)
    } else {
        key_with_hash_from(es, h, i + 1)
    }
}

/// The key an `Authorization` header carries after `Bearer `.
pub open spec fn bearer_key(header: Seq<char>) -> Option<Seq<char>> {
    if header.len() >= 7 && header.take(7) == "Bearer "@ {
        Some(header.skip(7))
    } else {
        None
    }
}

/// The URL of a provider's chat completions: its base URL without trailing
/// slashes, then `/v1/chat/completions`.
pub open spec fn completions_url(base_url: Seq<char>) -> Seq<char> {
    trim_end(base_url, '/') + "/v1/chat/completions"@
}

/// Where a completion request ends up.
pub enum Route {
    /// No authorization header.
    MissingAuth,
    /// An authorization header not of the form `Bearer <key>`.
    InvalidAuthFormat,
    /// A key the manager does not store.
    InvalidApiKey,
    /// A key whose provider is gone.
    ProviderGone(Seq<char>),
    /// A key whose provider is disabled; its name.
    ProviderDisabled(Seq<char>),
    /// Forwarded to this URL with this authorization, to this provider.
    Forward(Seq<char>, Seq<char>, Seq<char>),
}

/// What a completion request with authorization header `auth` comes to:
/// refused without a header, without the `Bearer ` form, or with a key that
/// is not stored; failed where the key's provider is gone; refused where the
/// provider is disabled; otherwise forwarded to the provider's completions
/// URL with the provider's own key.
pub open spec fn route_spec(state: State, auth: Option<Seq<char>>) -> Route {
    match auth {
        None => Route::MissingAuth,
        Some(h) => match bearer_key(h) {
            None => Route::InvalidAuthFormat,
            Some(key) => {
                let es = state.api_keys.entries_view();
                match key_with_hash_from(es, key_hash_of(key), 0) {
                    None => Route::InvalidApiKey,
                    Some(i) => {
                        let pid = es[i].1.provider_id@;
                        if !state.providers@.contains_key(pid) {
                            Route::ProviderGone(pid)
                        } else {
                            let p = state.providers@[pid];
                            if !p.enabled {
                                Route::ProviderDisabled(p.name@)
                            } else {
                                Route::Forward(completions_url(p.base_url@), "Bearer "@ + p.api_key@, pid)
                            }
                        }
                    },
                }
            },
        },
    }
}

/// Whether a routing result is where `route_spec` says the request ends up.
pub open spec fn route_agrees(r: Result<Upstream, ProxyError>, s: Route) -> bool {
    match s {
        Route::MissingAuth => r matches Err(ProxyError::MissingAuth),
        Route::InvalidAuthFormat => r matches Err(ProxyError::InvalidAuthFormat),
        Route::InvalidApiKey => r matches Err(ProxyError::InvalidApiKey),
        Route::ProviderGone(pid) => r matches Err(ProxyError::UpstreamError(m)) && m@ == "Provider not found: "@ + pid,
        Route::ProviderDisabled(name) => r matches Err(ProxyError::ProviderDisabled(n)) && n@ == name,
        Route::Forward(url, auth, pid) => r matches Ok(u) && u.url@ == url && u.authorization@ == auth && u.provider_id@ == pid,
    }
}

fn find_key_by_hash(state: &State, h: &str) -> (r: Option<usize>)
    ensures
        r matches Some(i) ==> key_with_hash_from(state.api_keys.entries_view(), h@, 0) == Some(i as int),
        r is None ==> key_with_hash_from(state.api_keys.entries_view(), h@, 0) is None,
        r matches Some(i) ==> i < state.api_keys.count(),
{
    let n = state.api_keys.len();
    let ghost es = state.api_keys.entries_view();
    let mut i: usize = 0;
    while i < n
        invariant
            i <= n,
            n == es.len(),
            es == state.api_keys.entries_view(),
            key_with_hash_from(es, h@, 0) == key_with_hash_from(es, h@, i as int),
        decreases n - i,
    {
        if str_eq(state.api_keys.value_at(i).key_hash.as_str(), h) {
            return Some(i);
        }
        i = i + 1;
    }
    None
}

/// Routes a completion request with authorization header `auth`.
pub fn route_completion(state: &State, auth: Option<&str>) -> (r: Result<Upstream, ProxyError>)
    requires
        state.wf(),
    ensures
        route_agrees(
            r,
            route_spec(
                *state,
                match auth {
                    Some(a) => Some(a@),
                    None => None,
                },
            ),
        ),
{
    let h = match auth {
        None => return Err(ProxyError::MissingAuth),
        Some(h) => h,
    };
    let hv = crate::text::chars_of(h);
    proof {
        reveal_strlit("Bearer ");
    }
    if !has_prefix(&hv, "Bearer ") {
        return Err(ProxyError::InvalidAuthFormat);
    }
    let key = substring(&hv, 7, hv.len());
    assert(key@ =~= h@.skip(7));
    let hash = hash_key(key.as_str());
    let i = match find_key_by_hash(state, hash.as_str()) {
        None => return Err(ProxyError::InvalidApiKey),
        Some(i) => i,
    };
    let pid = &state.api_keys.value_at(i).provider_id;
    match state.providers.get(pid.as_str()) {
        None => Err(ProxyError::UpstreamError(concat2("Provider not found: ", pid.as_str()))),
        Some(p) => {
            if !p.enabled {
                return Err(ProxyError::ProviderDisabled(p.name.clone()));
            }
            let base = trim_end_matches(p.base_url.as_str(), '/');
            let url = concat2(base.as_str(), "/v1/chat/completions");
            let authorization = concat2("Bearer ", p.api_key.as_str());
            Ok(Upstream { url, authorization, provider_id: pid.clone() })
        },
    }
}

impl ProxyError {
    /// The HTTP status the error is answered with: 401 for a missing,
    /// malformed or unknown key, 403 for a disabled provider, 502 for a
    /// failure of the provider.
    pub fn status_code(&self) -> (c: u16)
        ensures
            match self {
                ProxyError::MissingAuth | ProxyError::InvalidAuthFormat | ProxyError::InvalidApiKey => c == 401,
                ProxyError::ProviderDisabled(_) => c == 403,
                ProxyError::UpstreamError(_) => c == 502,
            },
    {
        match self {
            ProxyError::MissingAuth => 401,
            ProxyError::InvalidAuthFormat => 401,
            ProxyError::InvalidApiKey => 401,
            ProxyError::ProviderDisabled(_) => 403,
            ProxyError::UpstreamError(_) => 502,
        }
    }

    /// The message the error is answered with under `error`.
    pub fn message(&self) -> (m: String)
        ensures
            match self {
                ProxyError::MissingAuth => m@ == "Missing authorization header"@,
                ProxyError::InvalidAuthFormat => m@ == "Invalid authorization format"@,
                ProxyError::InvalidApiKey => m@ == "Invalid API key"@,
                ProxyError::ProviderDisabled(name) => m@ == "Provider "@ + name@ + " is disabled"@,
                ProxyError::UpstreamError(e) => m == e,
            },
    {
        match self {
            ProxyError::MissingAuth => "Missing authorization header".to_owned(),
            ProxyError::InvalidAuthFormat => "Invalid authorization format".to_owned(),
            ProxyError::InvalidApiKey => "Invalid API key".to_owned(),
            ProxyError::ProviderDisabled(name) => concat3("Provider ", name.as_str(), " is disabled"),
            ProxyError::UpstreamError(e) => e.clone(),
        }
    }
}


/// A completion is forwarded only with a key the manager stores, only to
/// that key's provider, and only while the provider is enabled; it carries
/// the provider's own key.
pub proof fn law_forwarded_only_to_enabled_provider(state: State, auth: Option<Seq<char>>)
    ensures
        route_spec(state, auth) matches Route::Forward(url, authorization, pid) ==> {
            &&& state.providers@.contains_key(pid)
            &&& state.providers@[pid].enabled
            &&& authorization == "Bearer "@ + state.providers@[pid].api_key@
            &&& exists|i: int|
                0 <= i < state.api_keys.entries_view().len() && #[trigger] state.api_keys.entries_view()[i].1.provider_id@
                    == pid
        },
{
    match auth {
        Some(h) => match bearer_key(h) {
            Some(key) => {
                let es = state.api_keys.entries_view();
                lemma_key_with_hash(es, key_hash_of(key), 0);
            },
            None => {},
        },
        None => {},
    }
}

proof fn lemma_key_with_hash(es: Seq<(Seq<char>, crate::models::ApiKey)>, h: Seq<char>, i: int)
    requires
        0 <= i,
    ensures
        key_with_hash_from(es, h, i) matches Some(j) ==> i <= j < es.len() && es[j].1.key_hash@ == h,
    decreases es.len() - i,
{
    if i < es.len() && es[i].1.key_hash@ != h {
        lemma_key_with_hash(es, h, i + 1);
    }
}

proof fn lemma_key_with_hash_first(es: Seq<(Seq<char>, ApiKey)>, h: Seq<char>, start: int, i: int)
    requires
        0 <= start <= i < es.len(),
        es[i].1.key_hash@ == h,
        forall|j: int| start <= j < i ==> #[trigger] es[j].1.key_hash@ != h,
    ensures
        key_with_hash_from(es, h, start) == Some(i),
    decreases i - start,
{
    if start < i {
        lemma_key_with_hash_first(es, h, start + 1, i);
    }
}

proof fn lemma_key_with_hash_none(es: Seq<(Seq<char>, ApiKey)>, h: Seq<char>, start: int)
    requires
        0 <= start,
        forall|j: int| start <= j < es.len() ==> #[trigger] es[j].1.key_hash@ != h,
    ensures
        key_with_hash_from(es, h, start) is None,
    decreases es.len() - start,
{
    if start < es.len() {
        lemma_key_with_hash_none(es, h, start + 1);
    }
}

/// No record of `keys` but the one under `id`, if any, is stored under hash
/// `h`.
pub open spec fn hash_only_under(keys: Map<Seq<char>, ApiKey>, h: Seq<char>, id: Seq<char>) -> bool {
    forall|k: Seq<char>| #[trigger] keys.contains_key(k) && k != id ==> keys[k].key_hash@ != h
}

/// In a table where only `id` may carry hash `h`, an entry with that hash is
/// the one under `id`.
proof fn lemma_only_entry_with_hash(t: crate::table::Table<ApiKey>, h: Seq<char>, id: Seq<char>, j: int)
    requires
        t.wf(),
        hash_only_under(t@, h, id),
        0 <= j < t.count(),
        t.entries_view()[j].1.key_hash@ == h,
    ensures
        t.keys()[j] == id,
{
    t.lemma_index_of(j);
    let k = t.keys()[j];
    assert(t@.contains_key(k));
    assert(t@[k] == t.entries_view()[j].1);
}

proof fn lemma_bearer(raw: Seq<char>)
    ensures
        bearer_key("Bearer "@ + raw) == Some(raw),
{
    reveal_strlit("Bearer ");
    assert(("Bearer "@ + raw).take(7) =~= "Bearer "@);
    assert(("Bearer "@ + raw).skip(7) =~= raw);
}

/// An API key that was just stored, under a hash that no other key has, lets
/// a completion through to its provider while that provider is enabled.
pub proof fn law_created_key_is_accepted(
    before: State,
    after: State,
    id: Seq<char>,
    name: Seq<char>,
    raw: Seq<char>,
    pid: Seq<char>,
    now: Seq<char>,
)
    requires
        before.wf(),
        after.wf(),
        after.same_except_api_keys(&before),
        after.api_keys@.contains_key(id),
        is_new_api_key(after.api_keys@[id], id, name, key_hash_of(raw), pid, now),
        after.api_keys@.remove(id) == before.api_keys@.remove(id),
        hash_only_under(before.api_keys@, key_hash_of(raw), id),
        before.providers@.contains_key(pid),
        before.providers@[pid].enabled,
    ensures
        route_spec(after, Some("Bearer "@ + raw)) == Route::Forward(
            completions_url(before.providers@[pid].base_url@),
            "Bearer "@ + before.providers@[pid].api_key@,
            pid,
        ),
{
    let h = key_hash_of(raw);
    lemma_bearer(raw);
    let t = after.api_keys;
    let es = t.entries_view();
    assert(hash_only_under(t@, h, id)) by {
        assert forall|k: Seq<char>| #[trigger] t@.contains_key(k) && k != id implies t@[k].key_hash@ != h by {
            assert(t@.remove(id).contains_key(k));
            assert(before.api_keys@.remove(id).contains_key(k));
            assert(t@[k] == t@.remove(id)[k]);
            assert(before.api_keys@[k] == before.api_keys@.remove(id)[k]);
        }
    }
    assert(t.has(id));
    let i = t.index_of(id);
    assert(0 <= i < t.keys().len() && t.keys()[i] == id);
    t.lemma_index_of(i);
    assert(es[i].1 == t@[id]);
    assert forall|j: int| 0 <= j < i implies #[trigger] es[j].1.key_hash@ != h by {
        if es[j].1.key_hash@ == h {
            lemma_only_entry_with_hash(t, h, id, j);
            assert(t.keys()[j] == t.keys()[i]);
        }
    }
    lemma_key_with_hash_first(es, h, 0, i);
}

/// Once an API key is deleted, a completion with it is refused as an
/// invalid key, provided no other stored key has its hash.
pub proof fn law_deleted_key_is_refused(before: State, after: State, id: Seq<char>, raw: Seq<char>)
    requires
        before.wf(),
        after.wf(),
        after.same_except_api_keys(&before),
        after.api_keys@ == before.api_keys@.remove(id),
        hash_only_under(before.api_keys@, key_hash_of(raw), id),
    ensures
        route_spec(after, Some("Bearer "@ + raw)) == Route::InvalidApiKey,
{
    let h = key_hash_of(raw);
    lemma_bearer(raw);
    let t = after.api_keys;
    let es = t.entries_view();
    assert forall|j: int| 0 <= j < es.len() implies #[trigger] es[j].1.key_hash@ != h by {
        t.lemma_index_of(j);
        let k = t.keys()[j];
        assert(t@.contains_key(k));
        assert(t@[k] == es[j].1);
        assert(k != id);
        assert(before.api_keys@.contains_key(k));
        assert(t@[k] == before.api_keys@[k]);
    }
    lemma_key_with_hash_none(es, h, 0);
}

impl State {
    /// Hands out a new API key for provider `provider_id`, made of the fresh
    /// random UUID `key_uuid`, stored under `id` by its hash and stamped
    /// `now`, and gives back the key itself, which is kept nowhere. An unknown
    /// provider is refused, changing nothing.
    pub fn issue_api_key(
        &mut self,
        id: String,
        name: String,
        provider_id: String,
        key_uuid: &str,
        now: String,
    ) -> (r: Result<String, crate::models::Error>)
        requires
            old(self).wf(),
        ensures
            final(self).wf(),
            !old(self).providers@.contains_key(provider_id@) ==> {
                &&& r matches Err(crate::models::Error::NotFound(m)) && m@ == "Provider not found: "@ + provider_id@
                &&& *final(self) == *old(self)
            },
            old(self).providers@.contains_key(provider_id@) ==> {
                &&& r is Ok
                &&& final(self).same_except_api_keys(&*old(self))
                &&& final(self).api_keys@.contains_key(id@)
                &&& final(self).api_keys@.remove(id@) == old(self).api_keys@.remove(id@)
                &&& r matches Ok(k) && {
                    &&& k@ == "zsp-"@ + key_uuid@
                    &&& is_new_api_key(final(self).api_keys@[id@], id@, name@, key_hash_of(k@), provider_id@, now@)
                }
            },
    {
        if !self.providers.contains_key(provider_id.as_str()) {
            return Err(crate::models::Error::NotFound(concat2("Provider not found: ", provider_id.as_str())));
        }
        let raw = generate_api_key(key_uuid);
        let hash = hash_key(raw.as_str());
        self.create_api_key(id, name, hash, provider_id, now);
        Ok(raw)
    }
}

} // verus!
