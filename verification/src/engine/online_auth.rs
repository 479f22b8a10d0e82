//! Access tokens of the online service: where they are kept, and when a new one is asked for.

use vstd::hash_map::StringHashMap;
use vstd::prelude::*;

use crate::config::OnlineAsrConfig;
use crate::error::{HybridAsrError, HybridAsrResult};
use crate::text::{integer_text, trim, trimmed, write_integer};

verus! {

/// How long a token is used, in nanoseconds: four hours.
pub const TOKEN_CACHE_TTL: u64 = 14_400_000_000_000;

/// A token and the time at which it is no longer used.
pub struct TokenModel {
    pub token: Seq<char>,
    pub expires_at: u64,
}

/// What a token cache holds: at most one token for a key.
pub type CacheModel = Map<Seq<char>, TokenModel>;

struct CachedAccessToken {
    token: String,
    expires_at: u64,
}

impl CachedAccessToken {
    spec fn model(self) -> TokenModel {
        TokenModel { token: self.token@, expires_at: self.expires_at }
    }
}

/// The tokens that were handed out, by what they were handed out for.
///
/// Times are nanoseconds since a moment that the caller has chosen once and for all.
pub struct TokenCache {
    entries: StringHashMap<CachedAccessToken>,
}

impl View for TokenCache {
    type V = CacheModel;

    closed spec fn view(&self) -> CacheModel {
        self.entries@.map_values(|entry: CachedAccessToken| entry.model())
    }
}

/// What is sent to the token service.
#[derive(Debug)]
pub struct TokenRequest {
    pub url: String,
    pub kcode: String,
    pub ksecret: String,
}

/// What the token service answers.
#[derive(Debug)]
pub struct TokenResponse {
    pub code: i32,
    pub message: Option<String>,
    pub data: Option<String>,
}

/// How to come by a token: it is there, or this request has to be made first.
#[derive(Debug)]
pub enum TokenStep {
    Ready(String),
    Request(TokenRequest),
}

/// The key under which the token of a service and its credentials is kept.
pub open spec fn key_text(url: Seq<char>, code: Seq<char>, secret: Seq<char>) -> Seq<char> {
    url + "::"@ + code + "::"@ + secret
}

/// The key under which the token for `options` is kept.
pub open spec fn cache_key(options: OnlineAsrConfig) -> Seq<char> {
    key_text(options.app_auth_url@, options.k_code@, options.k_secret@)
}

/// The token that is kept under `key`, if it is still used at `now`.
pub open spec fn usable_token(cache: CacheModel, key: Seq<char>, now: u64) -> Option<Seq<char>> {
    if cache.contains_key(key) && cache[key].expires_at > now {
        Some(cache[key].token)
    } else {
        None
    }
}

/// The cache after a look for the token under `key`: one that is no longer used has gone.
pub open spec fn cache_after_lookup(cache: CacheModel, key: Seq<char>, now: u64) -> CacheModel {
    if usable_token(cache, key, now) is Some {
        cache
    } else {
        cache.remove(key)
    }
}

/// Whether `step` asks for a token for `options`.
pub open spec fn is_request_for(step: TokenStep, options: OnlineAsrConfig) -> bool {
    step matches TokenStep::Request(request) && request.url@ == options.app_auth_url@
        && request.kcode@ == options.k_code@ && request.ksecret@ == options.k_secret@
}

/// The token that a response grants, or the message of its refusal.
pub open spec fn granted(response: TokenResponse) -> Result<Seq<char>, Seq<char>> {
    if response.code != 0 {
        Err(
            "获取 App-Access-Token 失败: code="@ + integer_text(response.code as int)
                + ", message="@ + (match response.message {
                Some(message) => message@,
                None => Seq::empty(),
            }),
        )
    } else {
        match response.data {
            Some(data) => if trimmed(data@).len() == 0 {
                Err("获取 App-Access-Token 失败: 返回 data 为空"@)
            } else {
                Ok(trimmed(data@))
            },
            None => Err("获取 App-Access-Token 失败: 返回 data 为空"@),
        }
    }
}

/// The cache after a token was kept at `now`.
pub open spec fn cache_after_store(
    cache: CacheModel,
    key: Seq<char>,
    token: Seq<char>,
    now: u64,
) -> CacheModel {
    cache.insert(key, TokenModel { token, expires_at: (now + TOKEN_CACHE_TTL) as u64 })
}

impl TokenCache {
    /// A cache without tokens.
    pub fn new() -> (cache: Self)
        ensures
            cache@ == CacheModel::empty(),
    {
        let cache: TokenCache = TokenCache { entries: StringHashMap::new() };
        proof {
            assert(cache@ =~= CacheModel::empty());
        }
        cache
    }

    /// The token under `key` that is still used at `now`. One that is not is dropped.
    pub fn read_cached_token(&mut self, key: &str, now: u64) -> (found: Option<String>)
        ensures
            found is Some <==> usable_token(old(self)@, key@, now) is Some,
            found matches Some(token) ==> usable_token(old(self)@, key@, now) == Some(token@),
            final(self)@ == cache_after_lookup(old(self)@, key@, now),
    {
        if let Some(entry) = self.entries.get(key) {
            if entry.expires_at > now {
                return Some(entry.token.clone());
            }
        }
        self.remove_cached_token(key);
        None
    }

    /// Keeps `token` under `key` for as long as a token is used.
    pub fn write_cached_token(&mut self, key: String, token: String, now: u64)
        requires
            now + TOKEN_CACHE_TTL <= u64::MAX,
        ensures
            final(self)@ == cache_after_store(old(self)@, key@, token@, now),
    {
        self.entries.insert(key, CachedAccessToken { token, expires_at: now + TOKEN_CACHE_TTL });
        proof {
            assert(self@ =~= cache_after_store(old(self)@, key@, token@, now));
        }
    }

    /// Drops the token under `key`.
    pub fn remove_cached_token(&mut self, key: &str)
        ensures
            final(self)@ == old(self)@.remove(key@),
    {
        self.entries.remove(key);
        proof {
            assert(self@ =~= old(self)@.remove(key@));
        }
    }
}

/// The key under which the token for `options` is kept.
pub fn build_cache_key(options: &OnlineAsrConfig) -> (key: String)
    ensures
        key@ == cache_key(*options),
{
    let mut key: String = options.app_auth_url.clone();
    key.append("::");
    key.append(options.k_code.as_str());
    key.append("::");
    key.append(options.k_secret.as_str());
    key
}

/// A token for `options`: the one that is kept, if it is still used, else a request for one.
pub fn get_app_access_token(cache: &mut TokenCache, options: &OnlineAsrConfig, now: u64) -> (step:
    TokenStep)
    ensures
        usable_token(old(cache)@, cache_key(*options), now) matches Some(kept) ==> step matches
            TokenStep::Ready(token) && token@ == kept,
        usable_token(old(cache)@, cache_key(*options), now) is None ==> is_request_for(
            step,
            *options,
        ),
        final(cache)@ == cache_after_lookup(old(cache)@, cache_key(*options), now),
{
    get_app_access_token_internal(cache, options, false, now)
}

/// A new token for `options`: whatever is kept is dropped and asked for again.
pub fn refresh_app_access_token(cache: &mut TokenCache, options: &OnlineAsrConfig) -> (step:
    TokenStep)
    ensures
        is_request_for(step, *options),
        final(cache)@ == old(cache)@.remove(cache_key(*options)),
{
    get_app_access_token_internal(cache, options, true, 0)
}

fn get_app_access_token_internal(
    cache: &mut TokenCache,
    options: &OnlineAsrConfig,
    force_refresh: bool,
    now: u64,
) -> (step: TokenStep)
    ensures
        force_refresh ==> {
            &&& is_request_for(step, *options)
            &&& final(cache)@ == old(cache)@.remove(cache_key(*options))
        },
        !force_refresh ==> {
            &&& usable_token(old(cache)@, cache_key(*options), now) matches Some(kept) ==> step
                matches TokenStep::Ready(token) && token@ == kept
            &&& usable_token(old(cache)@, cache_key(*options), now) is None ==> is_request_for(
                step,
                *options,
            )
            &&& final(cache)@ == cache_after_lookup(old(cache)@, cache_key(*options), now)
        },
{
    let key: String = build_cache_key(options);
    if force_refresh {
        cache.remove_cached_token(key.as_str());
    } else if let Some(token) = cache.read_cached_token(key.as_str(), now) {
        return TokenStep::Ready(token);
    }
    TokenStep::Request(
        TokenRequest {
            url: options.app_auth_url.clone(),
            kcode: options.k_code.clone(),
            ksecret: options.k_secret.clone(),
        },
    )
}

/// Takes the answer of the token service: a token that it grants is kept and handed on.
pub fn accept_token_response(
    cache: &mut TokenCache,
    options: &OnlineAsrConfig,
    response: &TokenResponse,
    now: u64,
) -> (outcome: HybridAsrResult<String>)
    requires
        now + TOKEN_CACHE_TTL <= u64::MAX,
    ensures
        outcome matches Ok(token) ==> granted(*response) == Ok::<Seq<char>, Seq<char>>(token@)
            && final(cache)@ == cache_after_store(
            old(cache)@,
            cache_key(*options),
            token@,
            now,
        ),
        outcome matches Err(error) ==> granted(*response) == Err::<Seq<char>, Seq<char>>(error@)
            && final(cache)@ == old(cache)@,
{
    if response.code != 0 {
        let mut message: String = "获取 App-Access-Token 失败: code=".to_owned();
        message.append(write_integer(response.code).as_str());
        message.append(", message=");
        if let Some(text) = &response.message {
            message.append(text.as_str());
        }
        proof {
            assert(message@ =~= granted(*response)->Err_0);
        }
        return Err(HybridAsrError::new(message));
    }
    if let Some(data) = &response.data {
        let token: String = trim(data.as_str());
        if !token.as_str().is_empty() {
            cache.write_cached_token(build_cache_key(options), token.clone(), now);
            return Ok(token);
        }
    }
    Err(HybridAsrError::from_text("获取 App-Access-Token 失败: 返回 data 为空"))
}

/// A token that was kept is handed out again until its time is over, and not after that.
pub proof fn law_kept_token_is_used_until_it_expires(
    cache: CacheModel,
    key: Seq<char>,
    token: Seq<char>,
    kept_at: u64,
    now: u64,
)
    requires
        kept_at + TOKEN_CACHE_TTL <= u64::MAX,
    ensures
        usable_token(cache_after_store(cache, key, token, kept_at), key, now) == if now < kept_at
            + TOKEN_CACHE_TTL {
            Some(token)
        } else {
            None
        },
{
}

/// Keeping, looking for and dropping a token leave the tokens under other keys alone.
pub proof fn law_other_tokens_stay(
    cache: CacheModel,
    key: Seq<char>,
    other: Seq<char>,
    token: Seq<char>,
    kept_at: u64,
    now: u64,
)
    requires
        key != other,
    ensures
        usable_token(cache_after_store(cache, key, token, kept_at), other, now) == usable_token(
            cache,
            other,
            now,
        ),
        usable_token(cache_after_lookup(cache, key, kept_at), other, now) == usable_token(
            cache,
            other,
            now,
        ),
        usable_token(cache.remove(key), other, now) == usable_token(cache, other, now),
{
}

/// A token that was dropped for a refresh is not handed out again.
pub proof fn law_dropped_token_is_gone(cache: CacheModel, key: Seq<char>, now: u64)
    ensures
        usable_token(cache.remove(key), key, now) is None,
{
}

/// Where codes and secrets hold no colon, two sets of credentials share a key only if they are
/// the same.
pub proof fn law_keys_tell_credentials_apart(
    url: Seq<char>,
    code: Seq<char>,
    secret: Seq<char>,
    other_url: Seq<char>,
    other_code: Seq<char>,
    other_secret: Seq<char>,
)
    requires
        !code.contains(':'),
        !secret.contains(':'),
        !other_code.contains(':'),
        !other_secret.contains(':'),
        key_text(url, code, secret) == key_text(other_url, other_code, other_secret),
    ensures
        url == other_url,
        code == other_code,
        secret == other_secret,
{
    reveal_strlit("::");
    lemma_tail_after_colons(url + "::"@ + code, secret, other_url + "::"@ + other_code, other_secret);
    lemma_tail_after_colons(url, code, other_url, other_code);
}

/// A text without a colon behind the last double colon is found again.
proof fn lemma_tail_after_colons(
    head: Seq<char>,
    tail: Seq<char>,
    other_head: Seq<char>,
    other_tail: Seq<char>,
)
    requires
        !tail.contains(':'),
        !other_tail.contains(':'),
        head + "::"@ + tail == other_head + "::"@ + other_tail,
    ensures
        head == other_head,
        tail == other_tail,
{
    reveal_strlit("::");
    let text = head + "::"@ + tail;
    let other = other_head + "::"@ + other_tail;
    let split = head.len() as int;
    let other_split = other_head.len() as int;
    assert(text[split + 1] == ':');
    assert(other[other_split + 1] == ':');
    assert(text.len() == head.len() + 2 + tail.len());
    assert(other.len() == other_head.len() + 2 + other_tail.len());
    if tail.len() < other_tail.len() {
        let at = split - 1 - other_split;
        assert(other[split + 1] == other_tail[at]);
        assert(false);
    }
    if other_tail.len() < tail.len() {
        let at = other_split - 1 - split;
        assert(text[other_split + 1] == tail[at]);
        assert(false);
    }
    assert(head =~= text.take(split));
    assert(other_head =~= other.take(split));
    assert(tail =~= text.skip(split + 2));
    assert(other_tail =~= other.skip(split + 2));
}

} // verus!
