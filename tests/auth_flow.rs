use spotify_relay::auth::{
    exchange_failure_reply, finish_exchange, login_url, plan_callback, token_form, CallbackQuery,
    CallbackStep, Config, ExchangeError, LoginQuery, BAD_REQUEST,
};
use spotify_relay::model::TokenResponse;

const REDIRECT: &str = "http://127.0.0.1:5173/callback";

fn query(
    code: Option<&str>,
    verifier: Option<&str>,
    client_id: Option<&str>,
    error: Option<&str>,
) -> CallbackQuery {
    CallbackQuery {
        code: code.map(|s| s.to_string()),
        code_verifier: verifier.map(|s| s.to_string()),
        client_id: client_id.map(|s| s.to_string()),
        error: error.map(|s| s.to_string()),
    }
}

fn token() -> TokenResponse {
    TokenResponse {
        access_token: "acc".to_string(),
        token_type: "Bearer".to_string(),
        expires_in: 3600,
        refresh_token: "ref".to_string(),
        scope: "user-read-private user-top-read".to_string(),
    }
}

fn rejection(step: CallbackStep) -> (u16, String) {
    match step {
        CallbackStep::Reject(r) => (r.status, r.body),
        CallbackStep::Exchange(_) => panic!("expected a rejection"),
    }
}

fn pairs(v: &[(&str, &str)]) -> Vec<(String, String)> {
    v.iter().map(|(a, b)| (a.to_string(), b.to_string())).collect()
}

#[test]
fn complete_callback_exchanges_with_exact_form() {
    let step = plan_callback(&query(Some("c0de"), Some("ver"), Some("cid"), None), REDIRECT);
    match step {
        CallbackStep::Exchange(form) => assert_eq!(
            form,
            pairs(&[
                ("grant_type", "authorization_code"),
                ("code", "c0de"),
                ("redirect_uri", REDIRECT),
                ("client_id", "cid"),
                ("code_verifier", "ver"),
            ])
        ),
        CallbackStep::Reject(_) => panic!("expected an exchange"),
    }
}

#[test]
fn token_form_matches_callback_form() {
    let form = token_form("a", "b", "c", "d");
    assert_eq!(
        form,
        pairs(&[
            ("grant_type", "authorization_code"),
            ("code", "a"),
            ("redirect_uri", "d"),
            ("client_id", "c"),
            ("code_verifier", "b"),
        ])
    );
}

#[test]
fn missing_verifier_is_rejected() {
    let (status, body) = rejection(plan_callback(&query(Some("c"), None, Some("cid"), None), REDIRECT));
    assert_eq!(status, 400);
    assert_eq!(body, "Missing code_verifier in query");
    let (status, _) = rejection(plan_callback(&query(Some("c"), None, None, Some("x")), REDIRECT));
    assert_eq!(status, BAD_REQUEST);
}

#[test]
fn missing_client_id_is_rejected() {
    let (status, body) = rejection(plan_callback(&query(Some("c"), Some("v"), None, None), REDIRECT));
    assert_eq!(status, 400);
    assert_eq!(body, "Missing client_id in query");
}

#[test]
fn upstream_error_is_echoed() {
    let (status, body) =
        rejection(plan_callback(&query(None, Some("v"), None, Some("access_denied")), REDIRECT));
    assert_eq!(status, 400);
    assert_eq!(body, "Spotify error: access_denied");
    assert!(body.contains("access_denied"));
}

#[test]
fn missing_code_is_rejected() {
    let (status, body) = rejection(plan_callback(&query(None, None, None, None), REDIRECT));
    assert_eq!(status, 400);
    assert_eq!(body, "Missing `code` in query");
}

#[test]
fn successful_exchange_returns_token_unchanged() {
    let t = finish_exchange(200, "{}".to_string(), Ok(token())).ok().unwrap();
    assert_eq!(t.access_token, "acc");
    assert_eq!(t.token_type, "Bearer");
    assert_eq!(t.expires_in, 3600);
    assert_eq!(t.refresh_token, "ref");
    assert_eq!(t.scope, "user-read-private user-top-read");
}

#[test]
fn non_success_status_is_upstream_error() {
    match finish_exchange(400, "bad code".to_string(), Ok(token())) {
        Err(ExchangeError::Upstream { status, body }) => {
            assert_eq!(status, 400);
            assert_eq!(body, "bad code");
        }
        _ => panic!("expected an upstream error"),
    }
}

#[test]
fn undecodable_token_is_decode_error() {
    match finish_exchange(200, "nope".to_string(), Err("expected value".to_string())) {
        Err(ExchangeError::Decode(d)) => assert_eq!(d, "expected value"),
        _ => panic!("expected a decode error"),
    }
}

#[test]
fn exchange_error_messages() {
    let up = ExchangeError::Upstream { status: 404, body: "nf".to_string() };
    assert_eq!(up.message(), "Spotify returned error: 404 -> nf");
    let zero = ExchangeError::Upstream { status: 0, body: String::new() };
    assert_eq!(zero.message(), "Spotify returned error: 0 -> ");
    let max = ExchangeError::Upstream { status: 65535, body: "b".to_string() };
    assert_eq!(max.message(), "Spotify returned error: 65535 -> b");
    assert_eq!(ExchangeError::Request("timeout".to_string()).message(), "Request failed: timeout");
    assert_eq!(ExchangeError::BodyRead("eof".to_string()).message(), "Body read failed: eof");
    assert_eq!(
        ExchangeError::Decode("missing field".to_string()).message(),
        "Token deserialization failed: missing field"
    );
}

#[test]
fn failure_reply_is_500_with_description() {
    let r = exchange_failure_reply(&ExchangeError::Upstream { status: 500, body: "x".to_string() });
    assert_eq!(r.status, 500);
    assert_eq!(r.body, "Token error: Spotify returned error: 500 -> x");
}

#[test]
fn login_redirect_address() {
    let q = LoginQuery {
        client_id: "cid".to_string(),
        code_challenge: "chal".to_string(),
        code_challenge_method: "S256".to_string(),
    };
    assert_eq!(
        login_url(&q, REDIRECT),
        "https://accounts.spotify.com/authorize?response_type=code&client_id=cid\
&scope=user-read-private user-read-email user-top-read\
&redirect_uri=http://127.0.0.1:5173/callback&code_challenge=chal\
&code_challenge_method=S256&show_dialog=true"
    );
}

#[test]
fn cors_origin_strips_known_paths() {
    let c = Config { redirect_uri: "http://localhost:5173/callback".to_string() };
    assert_eq!(c.cors_origin(), "http://localhost:5173");
    let c = Config { redirect_uri: "https://site.example/spotify-data/callback".to_string() };
    assert_eq!(c.cors_origin(), "https://site.example");
    let c = Config { redirect_uri: "http://a/b".to_string() };
    assert_eq!(c.cors_origin(), "http://a/b");
    let c = Config { redirect_uri: "/cal/callbackx/callbac".to_string() };
    assert_eq!(c.cors_origin(), "/calx/callbac");
}
