use hybrid_asr::config::OnlineAsrConfig;
use hybrid_asr::engine::online_auth::{
    accept_token_response, build_cache_key, get_app_access_token, refresh_app_access_token,
    TokenCache, TokenResponse, TokenStep, TOKEN_CACHE_TTL,
};

fn options(k_code: &str) -> OnlineAsrConfig {
    OnlineAsrConfig {
        online_url: "wss://asr.example".to_string(),
        app_auth_url: "https://auth.example/token".to_string(),
        k_code: k_code.to_string(),
        k_secret: "secret".to_string(),
        visit_k_code: "visit".to_string(),
        trace_id: "trace".to_string(),
        biz_id: "biz".to_string(),
        hot_words: None,
        sample_rate: 16_000,
        audio_format: "pcm_s16le".to_string(),
        frame_bytes: 4096,
    }
}

fn response(code: i32, message: Option<&str>, data: Option<&str>) -> TokenResponse {
    TokenResponse {
        code,
        message: message.map(str::to_string),
        data: data.map(str::to_string),
    }
}

fn ready(step: TokenStep) -> Option<String> {
    match step {
        TokenStep::Ready(token) => Some(token),
        TokenStep::Request(_) => None,
    }
}

#[test]
fn a_token_is_asked_for_once_and_then_kept() {
    let mut cache = TokenCache::new();
    let options = options("code");
    match get_app_access_token(&mut cache, &options, 10) {
        TokenStep::Request(request) => {
            assert_eq!(request.url, "https://auth.example/token");
            assert_eq!(request.kcode, "code");
            assert_eq!(request.ksecret, "secret");
        }
        TokenStep::Ready(token) => panic!("no token was kept, but got {token}"),
    }
    let granted = response(0, None, Some("  token-1\n"));
    assert_eq!(
        accept_token_response(&mut cache, &options, &granted, 10).unwrap(),
        "token-1"
    );
    assert_eq!(
        ready(get_app_access_token(&mut cache, &options, 11)),
        Some("token-1".to_string())
    );
}

#[test]
fn a_token_is_used_for_four_hours() {
    assert_eq!(TOKEN_CACHE_TTL, 4 * 60 * 60 * 1_000_000_000);
    let mut cache = TokenCache::new();
    let options = options("code");
    accept_token_response(&mut cache, &options, &response(0, None, Some("t")), 5).unwrap();
    assert_eq!(
        ready(get_app_access_token(&mut cache, &options, TOKEN_CACHE_TTL + 4)),
        Some("t".to_string())
    );
    assert_eq!(
        ready(get_app_access_token(&mut cache, &options, TOKEN_CACHE_TTL + 5)),
        None
    );
    assert_eq!(ready(get_app_access_token(&mut cache, &options, 6)), None);
}

#[test]
fn a_refresh_drops_the_token_that_was_kept() {
    let mut cache = TokenCache::new();
    let mine = options("mine");
    let other = options("other");
    accept_token_response(&mut cache, &mine, &response(0, None, Some("a")), 0).unwrap();
    accept_token_response(&mut cache, &other, &response(0, None, Some("b")), 0).unwrap();
    assert_eq!(ready(refresh_app_access_token(&mut cache, &mine)), None);
    assert_eq!(ready(get_app_access_token(&mut cache, &mine, 1)), None);
    assert_eq!(
        ready(get_app_access_token(&mut cache, &other, 1)),
        Some("b".to_string())
    );
    accept_token_response(&mut cache, &mine, &response(0, None, Some("c")), 1).unwrap();
    assert_eq!(
        ready(get_app_access_token(&mut cache, &mine, 2)),
        Some("c".to_string())
    );
}

#[test]
fn a_refusal_is_reported_and_nothing_is_kept() {
    let mut cache = TokenCache::new();
    let options = options("code");
    let cases = [
        (
            response(-401, Some("bad secret"), Some("t")),
            "获取 App-Access-Token 失败: code=-401, message=bad secret",
        ),
        (
            response(120, None, None),
            "获取 App-Access-Token 失败: code=120, message=",
        ),
        (
            response(i32::MIN, None, None),
            "获取 App-Access-Token 失败: code=-2147483648, message=",
        ),
        (
            response(0, Some("ok"), None),
            "获取 App-Access-Token 失败: 返回 data 为空",
        ),
        (
            response(0, None, Some(" \t\u{3000}")),
            "获取 App-Access-Token 失败: 返回 data 为空",
        ),
    ];
    for (refused, message) in cases {
        let error = accept_token_response(&mut cache, &options, &refused, 0).unwrap_err();
        assert_eq!(error.to_string(), message);
        assert_eq!(ready(get_app_access_token(&mut cache, &options, 0)), None);
    }
}

#[test]
fn keys_hold_the_service_and_the_credentials() {
    assert_eq!(
        build_cache_key(&options("code")),
        "https://auth.example/token::code::secret"
    );
}
