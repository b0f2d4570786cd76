use live_comments::api::Comment;
use live_comments::api::CommentsPayload;
use live_comments::api::DomainError;
use live_comments::api::LivePayload;
use live_comments::api::ProtocolError;
use live_comments::api::api_version;
use live_comments::api::bearer_header_value;
use live_comments::api::comments_url;
use live_comments::api::fetch_comments_outcome;
use live_comments::api::live_url;
use live_comments::api::resolve_active_broadcast;
use live_comments::credentials::Credentials;
use live_comments::credentials::trim_trailing_newline;
use live_comments::oauth::CallbackOutcome;
use live_comments::oauth::TokenCell;
use live_comments::oauth::TokenPayload;
use live_comments::oauth::CALLBACK_PORT;
use live_comments::oauth::TokenSource;
use live_comments::oauth::authorize_url;
use live_comments::oauth::choose_token_source;
use live_comments::oauth::handle_callback;
use live_comments::oauth::redirect_uri;
use live_comments::oauth::token_endpoint_url;
use live_comments::oauth::token_request_params;
use live_comments::poller::CycleEvent;
use live_comments::poller::poll_cycle;

fn comment(id: &str, message: &str) -> Comment {
    Comment { id: id.to_string(), message: message.to_string() }
}

#[test]
fn trims_trailing_newline() {
    assert_eq!(trim_trailing_newline("abc123\n"), "abc123");
}

#[test]
fn trim_leaves_contents_without_newline() {
    assert_eq!(trim_trailing_newline("abc123"), "abc123");
    assert_eq!(trim_trailing_newline(""), "");
    assert_eq!(trim_trailing_newline("\n"), "");
    assert_eq!(trim_trailing_newline("a\nb\n"), "a\nb");
}

#[test]
fn credentials_strip_newlines() {
    let c = Credentials::from_file_contents("id-one\n", "secret-two\n");
    assert_eq!(c.client_id, "id-one");
    assert_eq!(c.client_secret, "secret-two");
}

#[test]
fn authorize_url_for_loaded_client_id() {
    assert_eq!(
        authorize_url("abc123"),
        "https://apiv2.twitcasting.tv/oauth2/authorize?client_id=abc123&response_type=code"
    );
}

#[test]
fn comments_page_is_emitted_chronologically() {
    let page = vec![comment("10", "hi"), comment("9", "yo")];
    let (messages, cursor) =
        fetch_comments_outcome(CommentsPayload::Page(page), None).expect("page is not an error");
    assert_eq!(messages, Some(vec!["yo".to_string(), "hi".to_string()]));
    assert_eq!(cursor, Some("10".to_string()));
}

#[test]
fn ordering_round_trip() {
    let page = vec![comment("3", "c3"), comment("2", "c2"), comment("1", "c1")];
    let (messages, cursor) = fetch_comments_outcome(CommentsPayload::Page(page), None).unwrap();
    assert_eq!(
        messages,
        Some(vec!["c1".to_string(), "c2".to_string(), "c3".to_string()])
    );
    assert_eq!(cursor, Some("3".to_string()));
}

#[test]
fn empty_page_keeps_cursor() {
    let before = Some("7".to_string());
    let (messages, cursor) =
        fetch_comments_outcome(CommentsPayload::Page(Vec::new()), before.clone()).unwrap();
    assert_eq!(messages, Some(Vec::new()));
    assert_eq!(cursor, before);
}

#[test]
fn comments_domain_404_keeps_cursor() {
    let before = Some("42".to_string());
    let failure = CommentsPayload::Failure(DomainError { code: 404, message: "not found".to_string() });
    let (messages, cursor) = fetch_comments_outcome(failure, before.clone()).unwrap();
    assert_eq!(messages, None);
    assert_eq!(cursor, before);
}

#[test]
fn comments_unexpected_error_is_fatal() {
    let failure = CommentsPayload::Failure(DomainError { code: 500, message: "boom".to_string() });
    match fetch_comments_outcome(failure, None) {
        Err(ProtocolError::UnexpectedError(e)) => {
            assert_eq!(e.code, 500);
            assert_eq!(e.message, "boom");
        }
        _ => panic!("a non-404 domain error must be a protocol error"),
    }
}

#[test]
fn comments_malformed_body_is_fatal() {
    match fetch_comments_outcome(CommentsPayload::Malformed, None) {
        Err(ProtocolError::MalformedResponse) => {}
        _ => panic!("a body matching neither schema must be a protocol error"),
    }
}

#[test]
fn not_live_404_yields_none() {
    let body = LivePayload::Failure(DomainError { code: 404, message: "not found".to_string() });
    assert!(matches!(resolve_active_broadcast(body), Ok(None)));
}

#[test]
fn live_broadcast_yields_id() {
    let body = LivePayload::Broadcast("movie-77".to_string());
    match resolve_active_broadcast(body) {
        Ok(Some(id)) => assert_eq!(id, "movie-77"),
        _ => panic!("a broadcast body must resolve to its id"),
    }
}

#[test]
fn live_unexpected_error_is_fatal() {
    let body = LivePayload::Failure(DomainError { code: 403, message: "denied".to_string() });
    match resolve_active_broadcast(body) {
        Err(ProtocolError::UnexpectedError(e)) => assert_eq!(e.code, 403),
        _ => panic!("a non-404 domain error must be a protocol error"),
    }
}

#[test]
fn live_malformed_body_is_fatal() {
    assert!(matches!(
        resolve_active_broadcast(LivePayload::Malformed),
        Err(ProtocolError::MalformedResponse)
    ));
}

#[test]
fn not_live_cycle_leaves_cursor_untouched() {
    let before = Some("5".to_string());
    let report = poll_cycle(CycleEvent::NotLive, before.clone()).unwrap();
    assert_eq!(report.messages, None);
    assert_eq!(report.cursor, before);
}

#[test]
fn cursor_survives_live_gaps() {
    // A page with comments, then an empty page, a not-live cycle and a 404:
    // the cursor stays at the newest id of the only page that delivered any.
    let mut cursor: Option<String> = None;

    let page = vec![comment("20", "newest"), comment("19", "older")];
    let report = poll_cycle(CycleEvent::Fetched(CommentsPayload::Page(page)), cursor).unwrap();
    cursor = report.cursor;
    assert_eq!(cursor, Some("20".to_string()));

    let report = poll_cycle(
        CycleEvent::Fetched(CommentsPayload::Page(Vec::new())),
        cursor,
    )
    .unwrap();
    cursor = report.cursor;
    assert_eq!(cursor, Some("20".to_string()));

    let report = poll_cycle(CycleEvent::NotLive, cursor).unwrap();
    cursor = report.cursor;
    assert_eq!(cursor, Some("20".to_string()));

    let gone = CommentsPayload::Failure(DomainError { code: 404, message: "ended".to_string() });
    let report = poll_cycle(CycleEvent::Fetched(gone), cursor).unwrap();
    assert_eq!(report.messages, None);
    assert_eq!(report.cursor, Some("20".to_string()));
}

#[test]
fn protocol_error_cycle_is_reported() {
    let report = poll_cycle(CycleEvent::Fetched(CommentsPayload::Malformed), Some("3".to_string()));
    assert!(matches!(report, Err(ProtocolError::MalformedResponse)));
}

#[test]
fn malformed_exchange_after_success_is_ignored() {
    let mut cell = TokenCell::new();
    handle_callback(&mut cell, TokenPayload::Granted("tok-a".to_string()));
    let outcome = handle_callback(&mut cell, TokenPayload::Malformed);
    assert!(matches!(outcome, CallbackOutcome::AlreadyDone));
    assert_eq!(cell.get(), Some(&"tok-a".to_string()));
}

#[test]
fn token_cell_is_write_once() {
    let mut cell = TokenCell::new();
    assert!(cell.get().is_none());
    assert!(cell.try_set("first".to_string()));
    assert_eq!(cell.get(), Some(&"first".to_string()));
    assert!(!cell.try_set("second".to_string()));
    assert_eq!(cell.get(), Some(&"first".to_string()));
}

#[test]
fn duplicate_callback_does_not_overwrite_token() {
    let mut cell = TokenCell::new();
    let first = handle_callback(&mut cell, TokenPayload::Granted("tok-a".to_string()));
    match first {
        CallbackOutcome::Accepted(body) => assert_eq!(
            body,
            "Thank you, the token has successfully retrieved.\nYou can now close the browser."
        ),
        _ => panic!("the first callback must be accepted"),
    }
    assert_eq!(cell.get(), Some(&"tok-a".to_string()));

    let second = handle_callback(&mut cell, TokenPayload::Granted("tok-b".to_string()));
    assert!(matches!(second, CallbackOutcome::AlreadyDone));
    assert_eq!(cell.get(), Some(&"tok-a".to_string()));
}

#[test]
fn callback_without_token_field_fails() {
    let mut cell = TokenCell::new();
    let outcome = handle_callback(&mut cell, TokenPayload::Malformed);
    assert!(matches!(outcome, CallbackOutcome::Failed));
    assert!(cell.get().is_none());
}

#[test]
fn stored_token_skips_oauth() {
    match choose_token_source(Some("tok-stored\n".to_string())) {
        TokenSource::Stored(t) => assert_eq!(t, "tok-stored"),
        TokenSource::Interactive => panic!("a readable token file must be used"),
    }
    assert!(matches!(choose_token_source(None), TokenSource::Interactive));
}

#[test]
fn request_urls() {
    assert_eq!(
        live_url("equall2"),
        "https://apiv2.twitcasting.tv/users/equall2/current_live"
    );
    assert_eq!(
        comments_url("m1", &None),
        "https://apiv2.twitcasting.tv/movies/m1/comments"
    );
    assert_eq!(
        comments_url("m1", &Some("55".to_string())),
        "https://apiv2.twitcasting.tv/movies/m1/comments?slice_id=55"
    );
}

#[test]
fn request_headers() {
    assert_eq!(api_version(), "2.0");
    assert_eq!(bearer_header_value("tok-a"), "Bearer tok-a");
}

#[test]
fn token_exchange_request() {
    assert_eq!(
        token_endpoint_url(),
        "https://apiv2.twitcasting.tv/oauth2/access_token"
    );
    assert_eq!(redirect_uri(), "http://localhost:8000/");
    assert_eq!(CALLBACK_PORT, 8000);

    let params = token_request_params("the-code", "the-id", "the-secret");
    let expected = vec![
        ("code", "the-code"),
        ("grant_type", "authorization_code"),
        ("client_id", "the-id"),
        ("client_secret", "the-secret"),
        ("redirect_uri", "http://localhost:8000/"),
    ];
    assert_eq!(params.len(), expected.len());
    for (got, want) in params.iter().zip(expected.iter()) {
        assert_eq!(got.0, want.0);
        assert_eq!(got.1, want.1);
    }
}
