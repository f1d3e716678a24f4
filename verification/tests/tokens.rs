use factoryplus::error::FetchError;
use factoryplus::service::fetch_util::{
    get_new_token, token_outcome, try_decode_token, TokenBody, TokenReply,
};
use factoryplus::service::response::TokenStruct;
use factoryplus::service::tokens::{TokenCache, TokenDecision};
use factoryplus::service::ServiceType;

fn token(text: &str) -> TokenStruct {
    TokenStruct::from(text.to_string(), 1700000000)
}

fn failure() -> FetchError {
    FetchError {
        message: "Error fetching new token: 401 Unauthorised.".to_string(),
        url: "https://auth.example/token".to_string(),
    }
}

#[test]
fn many_callers_one_acquisition() {
    let mut cache = TokenCache::new();
    let service = ServiceType::ConfigDb;
    let mut acquisitions = 0;
    let mut waits = 0;
    for caller in 0..50u64 {
        match cache.get_token(service, caller) {
            TokenDecision::Acquire => {
                acquisitions += 1;
                assert_eq!(caller, 0);
            },
            TokenDecision::Wait => waits += 1,
            TokenDecision::Hit(_) => panic!("nothing was cached yet"),
        }
    }
    assert_eq!(acquisitions, 1);
    assert_eq!(waits, 49);
    let released = cache.complete(service, Ok(token("T1")));
    assert_eq!(released.waiters, (1..50u64).collect::<Vec<u64>>());
    assert_eq!(released.outcome.unwrap().token, "T1");
    for caller in 0..50u64 {
        match cache.get_token(service, caller) {
            TokenDecision::Hit(t) => {
                assert_eq!(t.token, "T1");
                assert_eq!(t.expiry, 1700000000);
            },
            _ => panic!("the token is cached"),
        }
    }
}

#[test]
fn a_failed_acquisition_is_shared_and_leaves_nothing() {
    let mut cache = TokenCache::new();
    let service = ServiceType::Directory;
    assert!(matches!(cache.get_token(service, 1), TokenDecision::Acquire));
    assert!(matches!(cache.get_token(service, 2), TokenDecision::Wait));
    assert!(matches!(cache.get_token(service, 3), TokenDecision::Wait));
    let released = cache.complete(service, Err(failure()));
    assert_eq!(released.waiters, vec![2, 3]);
    assert_eq!(released.outcome.unwrap_err().message, "Error fetching new token: 401 Unauthorised.");
    assert!(cache.cached(service).is_none());
    assert!(matches!(cache.get_token(service, 4), TokenDecision::Acquire));
}

#[test]
fn services_do_not_share_entries() {
    let mut cache = TokenCache::new();
    assert!(matches!(cache.get_token(ServiceType::ConfigDb, 1), TokenDecision::Acquire));
    assert!(matches!(cache.get_token(ServiceType::MQTT, 1), TokenDecision::Acquire));
    cache.complete(ServiceType::ConfigDb, Ok(token("C")));
    assert!(matches!(cache.get_token(ServiceType::MQTT, 2), TokenDecision::Wait));
    assert!(matches!(cache.get_token(ServiceType::Authentication, 2), TokenDecision::Acquire));
    assert!(matches!(cache.get_token(ServiceType::CommandEscalation, 2), TokenDecision::Acquire));
    assert!(matches!(cache.get_token(ServiceType::Directory, 2), TokenDecision::Acquire));
    assert_eq!(cache.cached(ServiceType::ConfigDb).unwrap().token, "C");
    assert!(cache.cached(ServiceType::MQTT).is_none());
}

#[test]
fn invalidation_discards_and_is_idempotent() {
    let mut cache = TokenCache::new();
    let service = ServiceType::Authentication;
    cache.invalidate(service);
    assert!(cache.cached(service).is_none());
    assert!(matches!(cache.get_token(service, 1), TokenDecision::Acquire));
    cache.complete(service, Ok(token("T1")));
    assert_eq!(cache.cached(service).unwrap().token, "T1");
    cache.invalidate(service);
    assert!(cache.cached(service).is_none());
    cache.invalidate(service);
    assert!(cache.cached(service).is_none());
    assert!(matches!(cache.get_token(service, 2), TokenDecision::Acquire));
}

#[test]
fn invalidation_does_not_start_a_second_acquisition() {
    let mut cache = TokenCache::new();
    let service = ServiceType::ConfigDb;
    assert!(matches!(cache.get_token(service, 1), TokenDecision::Acquire));
    cache.invalidate(service);
    assert!(matches!(cache.get_token(service, 2), TokenDecision::Wait));
    let released = cache.complete(service, Ok(token("T")));
    assert_eq!(released.waiters, vec![2]);
}

#[test]
fn a_stray_failure_does_not_evict_a_token() {
    let mut cache = TokenCache::new();
    let service = ServiceType::ConfigDb;
    let released = cache.complete(service, Ok(token("T1")));
    assert!(released.waiters.is_empty());
    let released = cache.complete(service, Err(failure()));
    assert!(released.waiters.is_empty());
    assert_eq!(cache.cached(service).unwrap().token, "T1");
    cache.complete(service, Ok(token("T2")));
    assert_eq!(cache.cached(service).unwrap().token, "T2");
}

#[test]
fn the_token_request_goes_to_the_token_path() {
    let request = get_new_token("https://cfg.example", &"user".to_string(), &"pass".to_string());
    assert_eq!(request.url, "https://cfg.example/token");
    assert_eq!(request.username, "user");
    assert_eq!(request.password, "pass");
}

fn answered(status: u16) -> TokenReply {
    TokenReply::Answered { status, body: TokenBody::Missing }
}

#[test]
fn a_token_reply_with_a_token_yields_it() {
    let reply = TokenReply::Answered { status: 200, body: TokenBody::Decoded(token("abc")) };
    let t = token_outcome(reply, "https://a/token".to_string()).unwrap();
    assert_eq!(t.token, "abc");
    assert_eq!(t.expiry, 1700000000);
    assert_eq!(t.clone().token, "abc");
}

#[test]
fn token_failures_have_their_messages() {
    let url = "https://a/token";
    let cases = [
        (TokenReply::NotBuilt, "Couldn't build a request to send for a token."),
        (TokenReply::NotSent, "Couldn't build token request."),
        (answered(200), "No response body."),
        (
            TokenReply::Answered { status: 200, body: TokenBody::Malformed },
            "Couldn't decode response into token",
        ),
        (answered(401), "Error fetching new token: 401 Unauthorised."),
        (answered(500), "Error fetching new token - 500 Server error."),
        (answered(404), "Error fetching new token: 404 Not found."),
        (answered(403), "Error fetching new token: 403"),
        (answered(201), "Error fetching new token: 201"),
        (answered(503), "Error fetching new token: 503"),
        (
            TokenReply::Answered { status: 401, body: TokenBody::Decoded(token("ignored")) },
            "Error fetching new token: 401 Unauthorised.",
        ),
    ];
    for (reply, message) in cases {
        let e = token_outcome(reply, url.to_string()).unwrap_err();
        assert_eq!(e.message, message);
        assert_eq!(e.url, url);
    }
}

#[test]
fn other_statuses_are_shown_as_the_http_crate_shows_them() {
    for status in [100u16, 204, 302, 418, 429, 502, 999] {
        let e = token_outcome(answered(status), "u".to_string()).unwrap_err();
        let shown = http::StatusCode::from_u16(status).unwrap();
        assert_eq!(e.message, format!("Error fetching new token: {}", shown.as_str()));
    }
}

#[test]
fn token_bodies() {
    assert_eq!(try_decode_token(TokenBody::Decoded(token("t")), "u".to_string()).unwrap().token, "t");
    let e = try_decode_token(TokenBody::Malformed, "u".to_string()).unwrap_err();
    assert_eq!(e.message, "Couldn't decode response into token");
    assert_eq!(e.url, "u");
    let e = try_decode_token(TokenBody::Missing, "u".to_string()).unwrap_err();
    assert_eq!(e.message, "No response body.");
}
