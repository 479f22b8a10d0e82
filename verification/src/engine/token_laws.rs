//! Which tokens are granted, kept and asked for.

use vstd::prelude::*;

use crate::config::OnlineAsrConfig;
use crate::engine::online_auth::{
    cache_after_lookup, cache_after_store, cache_key, granted, is_request_for, usable_token,
    CacheModel, TokenResponse, TokenStep, TOKEN_CACHE_TTL,
};
use crate::text::{integer_text, trimmed};
use crate::text_laws::{is_blank, is_inner, law_trimming_takes_the_white_space_around};

verus! {

/// A token is granted exactly where the service answers with the code zero and with data that is
/// not blank, and it is the data without the white space around it.
pub proof fn law_tokens_are_granted(response: TokenResponse)
    ensures
        granted(response) is Ok <==> response.code == 0 && (response.data matches Some(data)
            && !is_blank(data@)),
        granted(response) matches Ok(token) ==> response.data is Some && is_inner(
            response.data->0@,
            token,
        ) && token == trimmed(response.data->0@) && token.len() > 0,
{
    if let Some(data) = response.data {
        law_trimming_takes_the_white_space_around(data@);
    }
}

/// What is said where no token is granted: the code and the message of the service, or that its
/// data is empty.
pub proof fn law_refused_tokens_say_why(response: TokenResponse)
    ensures
        response.code != 0 && response.message is Some ==> granted(response) == Err::<
            Seq<char>,
            Seq<char>,
        >(
            "获取 App-Access-Token 失败: code="@ + integer_text(response.code as int) + ", message="@
                + response.message->0@,
        ),
        response.code != 0 && response.message is None ==> granted(response) == Err::<
            Seq<char>,
            Seq<char>,
        >("获取 App-Access-Token 失败: code="@ + integer_text(response.code as int) + ", message="@),
        response.code == 0 && granted(response) is Err ==> granted(response) == Err::<
            Seq<char>,
            Seq<char>,
        >("获取 App-Access-Token 失败: 返回 data 为空"@),
{
    assert("获取 App-Access-Token 失败: code="@ + integer_text(response.code as int) + ", message="@
        + Seq::<char>::empty() =~= "获取 App-Access-Token 失败: code="@ + integer_text(
        response.code as int,
    ) + ", message="@);
}

/// A token is asked for where the service is configured to be, with the configured credentials.
pub proof fn law_tokens_are_asked_for_as_configured(step: TokenStep, options: OnlineAsrConfig)
    requires
        is_request_for(step, options),
    ensures
        step matches TokenStep::Request(request) && request.url@ == options.app_auth_url@
            && request.kcode@ == options.k_code@ && request.ksecret@ == options.k_secret@,
{
}

/// A token that was kept for some options is handed out for them during four hours, however often
/// it is asked for, and not after that.
pub proof fn law_tokens_last_four_hours(
    cache: CacheModel,
    options: OnlineAsrConfig,
    token: Seq<char>,
    kept_at: u64,
    earlier: u64,
    now: u64,
)
    requires
        kept_at + 4 * 60 * 60 * 1_000_000_000 <= u64::MAX,
        earlier <= now,
    ensures
        ({
            let key = cache_key(options);
            let kept = cache_after_store(cache, key, token, kept_at);
            let looked = cache_after_lookup(kept, key, earlier);
            &&& now < kept_at + 4 * 60 * 60 * 1_000_000_000 ==> usable_token(looked, key, now)
                == Some(token)
            &&& now >= kept_at + 4 * 60 * 60 * 1_000_000_000 ==> usable_token(looked, key, now)
                is None
        }),
{
    assert(TOKEN_CACHE_TTL == 4 * 60 * 60 * 1_000_000_000);
}

/// The key of some options is their address, their code and their secret, with two colons between
/// them.
pub proof fn law_keys_are_made_of_credentials(options: OnlineAsrConfig)
    ensures
        cache_key(options) == options.app_auth_url@ + seq![':', ':'] + options.k_code@ + seq![
            ':',
            ':',
        ] + options.k_secret@,
{
    reveal_strlit("::");
    assert("::"@ =~= seq![':', ':']);
}

/// A look for a token drops it only if it is no longer used, and drops no other.
pub proof fn law_lookups_drop_what_is_over(cache: CacheModel, key: Seq<char>, now: u64)
    ensures
        cache.contains_key(key) && cache[key].expires_at > now ==> usable_token(cache, key, now)
            == Some(cache[key].token) && cache_after_lookup(cache, key, now) == cache,
        !(cache.contains_key(key) && cache[key].expires_at > now) ==> usable_token(cache, key, now)
            is None && !cache_after_lookup(cache, key, now).contains_key(key),
        forall|other: Seq<char>|
            other != key ==> (cache_after_lookup(cache, key, now).contains_key(other)
                <==> #[trigger] cache.contains_key(other)),
{
}

} // verus!
