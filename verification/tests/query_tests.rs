use emojos::emoji::EmojiRecord;
use emojos::outcome::{Kind, QueryOutcome};
use emojos::query::{
    classify_status, needs_body, prepare_query, resolve_query, user_agent, FetchOutcome,
    StatusClass,
};

fn rec(shortcode: &str, visible_in_picker: Option<bool>) -> EmojiRecord {
    EmojiRecord {
        shortcode: shortcode.to_owned(),
        url: format!("https://example.com/emoji/{shortcode}.png"),
        static_url: format!("https://example.com/emoji/{shortcode}-static.png"),
        visible_in_picker,
    }
}

fn ok_response(records: Vec<EmojiRecord>) -> FetchOutcome {
    FetchOutcome::Response { status: 200, redirected: false, body: Some(records) }
}

#[test]
fn hidden_record_dropped_by_default() {
    let records = vec![rec("blob", Some(false))];
    let out = resolve_query("example.com".to_owned(), false, false, ok_response(records));
    match out {
        QueryOutcome::Success { emojo, show_animated } => {
            assert!(emojo.is_empty());
            assert!(!show_animated);
        }
        _ => panic!("expected success"),
    }
}

#[test]
fn show_all_keeps_hidden_record() {
    let records = vec![rec("blob", Some(false))];
    let out = resolve_query("example.com".to_owned(), true, false, ok_response(records));
    match out {
        QueryOutcome::Success { emojo, .. } => {
            assert_eq!(emojo.len(), 1);
            assert_eq!(emojo[0].shortcode, "blob");
        }
        _ => panic!("expected success"),
    }
}

#[test]
fn forbidden_status_is_private() {
    let fetch = FetchOutcome::Response { status: 403, redirected: false, body: None };
    let out = resolve_query("example.com".to_owned(), false, false, fetch);
    match &out {
        QueryOutcome::Failure { kind, instance } => {
            assert_eq!(*kind, Kind::Private);
            assert_eq!(instance, "example.com");
            assert_eq!(kind.message(), "Instance emoji list is private");
        }
        _ => panic!("expected failure"),
    }
    assert_eq!(out.http_status(), 403);
}

#[test]
fn host_with_space_is_not_found_before_any_request() {
    let r = prepare_query("bad host");
    match r {
        Err(QueryOutcome::Failure { kind, instance }) => {
            assert_eq!(kind, Kind::NotFound);
            assert_eq!(instance, "bad host");
        }
        _ => panic!("expected a not-found failure"),
    }
}

#[test]
fn timeout_is_timed_out() {
    let out = resolve_query("example.com".to_owned(), false, false, FetchOutcome::TimedOut);
    match &out {
        QueryOutcome::Failure { kind, .. } => {
            assert_eq!(*kind, Kind::TimedOut);
            assert_eq!(kind.message(), "Timed out waiting for response");
        }
        _ => panic!("expected failure"),
    }
    assert_eq!(out.http_status(), 504);
}

#[test]
fn status_classification_table() {
    assert_eq!(classify_status(401), StatusClass::Friendly(Kind::Private));
    assert_eq!(classify_status(403), StatusClass::Friendly(Kind::Private));
    assert_eq!(classify_status(404), StatusClass::Friendly(Kind::NotFound));
    assert_eq!(classify_status(405), StatusClass::Friendly(Kind::NotFound));
    assert_eq!(classify_status(410), StatusClass::Friendly(Kind::NotFound));
    assert_eq!(classify_status(400), StatusClass::Unclassified);
    assert_eq!(classify_status(418), StatusClass::Unclassified);
    assert_eq!(classify_status(500), StatusClass::Unclassified);
    assert_eq!(classify_status(599), StatusClass::Unclassified);
    assert_eq!(classify_status(100), StatusClass::Proceed);
    assert_eq!(classify_status(200), StatusClass::Proceed);
    assert_eq!(classify_status(304), StatusClass::Proceed);
}

#[test]
fn unclassified_status_is_internal_error() {
    let fetch = FetchOutcome::Response { status: 500, redirected: false, body: None };
    let out = resolve_query("example.com".to_owned(), false, false, fetch);
    assert_eq!(out, QueryOutcome::Unclassified);
    assert_eq!(out.http_status(), 500);
}

#[test]
fn connection_failure_is_not_found() {
    let out = resolve_query("example.com".to_owned(), false, false, FetchOutcome::ConnectFailed);
    match out {
        QueryOutcome::Failure { kind, .. } => assert_eq!(kind, Kind::NotFound),
        _ => panic!("expected failure"),
    }
}

#[test]
fn other_transport_error_is_internal_error() {
    let out = resolve_query("example.com".to_owned(), false, false, FetchOutcome::OtherTransport);
    assert_eq!(out, QueryOutcome::Unclassified);
}

#[test]
fn redirected_response_is_malformed() {
    let fetch = FetchOutcome::Response {
        status: 200,
        redirected: true,
        body: Some(vec![rec("blob", None)]),
    };
    let out = resolve_query("example.com".to_owned(), false, false, fetch);
    match &out {
        QueryOutcome::Failure { kind, .. } => assert_eq!(*kind, Kind::Malformed),
        _ => panic!("expected failure"),
    }
    assert_eq!(out.http_status(), 502);
}

#[test]
fn transport_level_redirect_is_malformed() {
    let out = resolve_query("example.com".to_owned(), false, false, FetchOutcome::Redirected);
    match out {
        QueryOutcome::Failure { kind, .. } => assert_eq!(kind, Kind::Malformed),
        _ => panic!("expected failure"),
    }
}

#[test]
fn undecodable_body_is_malformed() {
    let fetch = FetchOutcome::Response { status: 200, redirected: false, body: None };
    let out = resolve_query("example.com".to_owned(), false, false, fetch);
    match &out {
        QueryOutcome::Failure { kind, .. } => {
            assert_eq!(*kind, Kind::Malformed);
            assert_eq!(kind.message(), "Response from the instance was malformed");
        }
        _ => panic!("expected failure"),
    }
}

#[test]
fn repeated_query_gives_identical_outcome() {
    let fetch = || ok_response(vec![rec("blob", None), rec("ghost", Some(false))]);
    let out1 = resolve_query("example.com".to_owned(), false, true, fetch());
    let out2 = resolve_query("example.com".to_owned(), false, true, fetch());
    assert_eq!(out1, out2);
}

#[test]
fn valid_host_builds_api_url() {
    let url = prepare_query("example.com").expect("valid host");
    assert_eq!(url, "https://example.com/api/v1/custom_emojis");
}

#[test]
fn host_is_normalized_in_url() {
    let url = prepare_query("EXAMPLE.com").expect("valid host");
    assert_eq!(url, "https://example.com/api/v1/custom_emojis");
}

#[test]
fn empty_host_is_rejected() {
    assert!(prepare_query("").is_err());
}

#[test]
fn needs_body_only_for_clean_success() {
    assert!(needs_body(200, false));
    assert!(!needs_body(200, true));
    assert!(!needs_body(403, false));
    assert!(!needs_body(500, false));
}

#[test]
fn user_agent_is_fixed() {
    assert_eq!(user_agent(), "emojos.in/0.1.0 (+https://github.com/iliana/emojos.in)");
}

#[test]
fn failure_messages_and_statuses() {
    assert_eq!(
        Kind::NotFound.message(),
        "Not a fediverse instance, or does not support the Mastodon custom emoji API"
    );
    assert_eq!(Kind::Malformed.message(), "Response from the instance was malformed");
    assert_eq!(Kind::Private.message(), "Instance emoji list is private");
    assert_eq!(Kind::TimedOut.message(), "Timed out waiting for response");
    assert_eq!(Kind::Malformed.http_status(), 502);
    assert_eq!(Kind::NotFound.http_status(), 404);
    assert_eq!(Kind::Private.http_status(), 403);
    assert_eq!(Kind::TimedOut.http_status(), 504);
}
