use review_gate::credential::bearer_credential;
use review_gate::{
    check_request, check_review, Config, Decision, Extractor, IpAddress, Request, ReviewRequest,
    ReviewResult, Step, UserInfo,
};

fn strings(items: &[&str]) -> Vec<String> {
    items.iter().map(|s| s.to_string()).collect()
}

fn config(identities: &[&str]) -> Config {
    Config::new(strings(&["api", "cluster"]), strings(identities))
}

fn remote() -> IpAddress {
    IpAddress::V4([10, 1, 2, 3])
}

fn bearer(token: &str) -> Option<Vec<u8>> {
    Some(format!("Bearer {}", token).into_bytes())
}

fn vouched(username: &str) -> ReviewResult {
    ReviewResult {
        authenticated: Some(true),
        user: Some(UserInfo {
            username: Some(username.to_string()),
            groups: None,
        }),
    }
}

/// Runs both steps, asking `authority` at most once.
fn decide(
    config: &Config,
    request: &Request,
    authority: impl FnOnce(&ReviewRequest) -> Result<Option<ReviewResult>, String>,
) -> Decision {
    match check_request(config, request) {
        Step::Done(d) => d,
        Step::Review(r) => check_review(config, authority(&r)),
    }
}

fn never_called(_: &ReviewRequest) -> Result<Option<ReviewResult>, String> {
    panic!("the authority must not be asked")
}

#[test]
fn loopback_without_header_is_allowed() {
    let request = Request {
        origin: IpAddress::V4([127, 0, 0, 1]),
        authorization: None,
    };
    assert_eq!(decide(&config(&[]), &request, never_called), Decision::Allow);
}

#[test]
fn loopback_with_any_header_is_allowed_without_review() {
    for authorization in [None, bearer("t"), Some(b"garbage".to_vec())] {
        let request = Request {
            origin: IpAddress::V4([127, 9, 8, 7]),
            authorization,
        };
        assert_eq!(decide(&config(&[]), &request, never_called), Decision::Allow);
    }
}

#[test]
fn ipv6_loopback_is_allowed() {
    let request = Request {
        origin: IpAddress::V6([0, 0, 0, 0, 0, 0, 0, 1]),
        authorization: None,
    };
    assert_eq!(decide(&config(&[]), &request, never_called), Decision::Allow);
}

#[test]
fn loopback_addresses() {
    assert!(IpAddress::V4([127, 255, 255, 255]).is_loopback());
    assert!(!IpAddress::V4([128, 0, 0, 1]).is_loopback());
    assert!(!IpAddress::V6([0, 0, 0, 0, 0, 0, 0, 0]).is_loopback());
    assert!(!IpAddress::V6([0, 0, 0, 0, 0, 0xffff, 0x7f00, 1]).is_loopback());
    assert!(!IpAddress::V6([1, 0, 0, 0, 0, 0, 0, 1]).is_loopback());
}

#[test]
fn remote_without_header_is_unauthenticated() {
    let request = Request {
        origin: remote(),
        authorization: None,
    };
    assert_eq!(
        decide(&config(&["alice"]), &request, never_called),
        Decision::Unauthenticated
    );
}

#[test]
fn remote_with_malformed_header_is_unauthenticated() {
    for value in [&b"Basic abc"[..], b"bearer abc", b"Bearer", b"Bearerabc", b"Bearer a\x01c"] {
        let request = Request {
            origin: remote(),
            authorization: Some(value.to_vec()),
        };
        assert_eq!(
            decide(&config(&["alice"]), &request, never_called),
            Decision::Unauthenticated
        );
    }
}

#[test]
fn remote_with_credential_is_reviewed_once() {
    let request = Request {
        origin: remote(),
        authorization: bearer("tok.en"),
    };
    match check_request(&config(&["alice"]), &request) {
        Step::Review(r) => {
            assert_eq!(r.token, "tok.en");
            assert_eq!(r.audiences, strings(&["api", "cluster"]));
        }
        other => panic!("expected a review, got {:?}", other),
    }
}

#[test]
fn vouched_listed_user_is_allowed() {
    let request = Request {
        origin: remote(),
        authorization: bearer("valid"),
    };
    let d = decide(&config(&["alice", "bob"]), &request, |r| {
        assert_eq!(r.token, "valid");
        Ok(Some(vouched("alice")))
    });
    assert_eq!(d, Decision::Allow);
}

#[test]
fn vouched_unlisted_user_is_unauthorized() {
    let request = Request {
        origin: remote(),
        authorization: bearer("valid"),
    };
    let d = decide(&config(&["bob"]), &request, |_| Ok(Some(vouched("alice"))));
    assert_eq!(d, Decision::Unauthorized);
}

#[test]
fn empty_allow_list_denies_every_vouched_user() {
    assert_eq!(
        check_review(&config(&[]), Ok(Some(vouched("alice")))),
        Decision::Unauthorized
    );
}

#[test]
fn explicit_false_is_unauthenticated() {
    let status = ReviewResult {
        authenticated: Some(false),
        user: None,
    };
    let request = Request {
        origin: remote(),
        authorization: bearer("valid"),
    };
    let d = decide(&config(&["alice"]), &request, |_| Ok(Some(status)));
    assert_eq!(d, Decision::Unauthenticated);
}

#[test]
fn inconclusive_answers_are_unauthenticated() {
    let c = config(&["alice"]);
    let mut false_with_user = vouched("alice");
    false_with_user.authenticated = Some(false);
    let mut omitted = vouched("alice");
    omitted.authenticated = None;
    let no_user = ReviewResult {
        authenticated: Some(true),
        user: None,
    };
    let no_username = ReviewResult {
        authenticated: Some(true),
        user: Some(UserInfo::default()),
    };
    for status in [None, Some(false_with_user), Some(omitted), Some(no_user), Some(no_username)] {
        assert_eq!(check_review(&c, Ok(status)), Decision::Unauthenticated);
    }
}

#[test]
fn failed_review_is_internal_error() {
    let request = Request {
        origin: remote(),
        authorization: bearer("valid"),
    };
    for ids in [&[][..], &["alice"][..]] {
        let d = decide(&config(ids), &request, |_| Err("timed out".to_string()));
        assert_eq!(d, Decision::InternalError("timed out".to_string()));
    }
}

#[test]
fn repeated_request_gets_the_same_decision() {
    let c = config(&["alice"]);
    let request = Request {
        origin: remote(),
        authorization: bearer("valid"),
    };
    let first = decide(&c, &request, |_| Ok(Some(vouched("alice"))));
    let second = decide(&c, &request, |_| Ok(Some(vouched("alice"))));
    assert_eq!(first, second);
    let failed = decide(&c, &request, |_| Err("one".to_string()));
    let failed_again = decide(&c, &request, |_| Err("two".to_string()));
    assert!(matches!(failed, Decision::InternalError(_)));
    assert!(matches!(failed_again, Decision::InternalError(_)));
}

#[test]
fn bearer_token_is_what_follows_the_scheme() {
    assert_eq!(bearer_credential(&bearer("abc")), Some("abc".to_string()));
    assert_eq!(
        bearer_credential(&Some(b"Bearer  two\tparts".to_vec())),
        Some(" two\tparts".to_string())
    );
    assert_eq!(bearer_credential(&Some(b"Bearer ".to_vec())), Some(String::new()));
    assert_eq!(bearer_credential(&Some("Bearer caf\u{e9}".as_bytes().to_vec())), None);
    assert_eq!(bearer_credential(&None), None);
}

#[test]
fn outcomes_map_to_statuses() {
    assert_eq!(Decision::Allow.outcome(), Ok(Extractor));
    assert_eq!(Decision::Unauthenticated.outcome(), Err(401));
    assert_eq!(Decision::Unauthorized.outcome(), Err(403));
    assert_eq!(Decision::InternalError("x".to_string()).outcome(), Err(500));
}

#[test]
fn config_keeps_its_lists() {
    let c = config(&["alice", "bob"]);
    assert_eq!(c.audiences(), &strings(&["api", "cluster"]));
    assert_eq!(c.identities(), &strings(&["alice", "bob"]));
    assert!(c.is_authorized(&"bob".to_string()));
    assert!(!c.is_authorized(&"carol".to_string()));
}
