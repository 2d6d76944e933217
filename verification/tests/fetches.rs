use maplibre_native::fetch::{
    fetch_step, file_outcome, http_head, http_outcome, plan_fetch, resource_response,
    unsupported_outcome, FetchError, FetchEvent, FetchPlan, FetchStep, FileRead,
};
use maplibre_native::{FsErrorReason, FsResponse};

#[test]
fn file_urls_are_read_from_disk() {
    match plan_fetch("file:///styles/demo.json") {
        FetchPlan::File(path) => assert_eq!(path, "/styles/demo.json"),
        other => panic!("{other:?}"),
    }
    match plan_fetch("file://") {
        FetchPlan::File(path) => assert_eq!(path, ""),
        other => panic!("{other:?}"),
    }
}

#[test]
fn http_urls_are_asked_for() {
    for url in ["http://a", "https://a", "http://", "https://a/file://b"] {
        assert!(matches!(plan_fetch(url), FetchPlan::Http), "{url}");
    }
}

#[test]
fn other_schemes_are_not_fetched() {
    for url in ["", "mbtiles://a", "FILE:///a", "http:/a", "https", "/a", " http://a"] {
        assert!(matches!(plan_fetch(url), FetchPlan::Unsupported), "{url}");
    }
}

#[test]
fn missing_file_is_a_miss() {
    let response = resource_response(file_outcome(FileRead::Missing));
    assert!(matches!(response, FsResponse::NoContent));
}

#[test]
fn file_contents_are_the_body() {
    match resource_response(file_outcome(FileRead::Contents(vec![4, 5]))) {
        FsResponse::Success(bytes) => assert_eq!(bytes, vec![4, 5]),
        other => panic!("{other:?}"),
    }
}

#[test]
fn statuses() {
    for status in 100..=599u16 {
        let decided = http_head(status, "text".to_owned());
        match status {
            404 => assert!(matches!(decided, Some(Ok(None)))),
            200..=299 => assert!(decided.is_none()),
            _ => match decided {
                Some(Err(FetchError::Status(text))) => assert_eq!(text, "text"),
                other => panic!("{other:?}"),
            },
        }
    }
}

#[test]
fn http_body_is_the_body() {
    match resource_response(http_outcome(Ok(vec![6]))) {
        FsResponse::Success(bytes) => assert_eq!(bytes, vec![6]),
        other => panic!("{other:?}"),
    }
}

fn message_of(response: FsResponse) -> String {
    match response {
        FsResponse::Error { reason: FsErrorReason::Other, message } => message,
        other => panic!("{other:?}"),
    }
}

#[test]
fn errors_are_reported_with_their_cause() {
    let failed = file_outcome(FileRead::Failed("permission denied".to_owned()));
    assert_eq!(message_of(resource_response(failed)), "io: permission denied");

    let refused = http_head(503, "503 Service Unavailable".to_owned()).unwrap();
    assert_eq!(message_of(resource_response(refused)), "status: 503 Service Unavailable");

    let unanswered = http_outcome(Err("timed out".to_owned()));
    assert_eq!(message_of(resource_response(unanswered)), "request: timed out");

    let unsupported = unsupported_outcome("mbtiles://a");
    assert_eq!(message_of(resource_response(unsupported)), "unsupported scheme: mbtiles://a");
}

/// Fetches `url` step by step and gives the outcome with the number of readings.
fn fetch(
    url: &str,
    status: Result<u16, &str>,
    body: Result<Vec<u8>, &str>,
) -> (Result<Option<Vec<u8>>, FetchError>, usize) {
    let mut event = FetchEvent::Start;
    let mut readings = 0;
    loop {
        event = match fetch_step(url, event) {
            FetchStep::ReadFile(path) => FetchEvent::File(match path.as_str() {
                "/there" => FileRead::Contents(vec![1]),
                "/locked" => FileRead::Failed("locked".to_owned()),
                _ => FileRead::Missing,
            }),
            FetchStep::AskServer => match status {
                Ok(status) => FetchEvent::Head { status, text: status.to_string() },
                Err(text) => FetchEvent::NoAnswer(text.to_owned()),
            },
            FetchStep::ReadBody => FetchEvent::Body(body.clone().map_err(str::to_owned)),
            FetchStep::Done(outcome) => return (outcome, readings),
        };
        readings += 1;
    }
}

#[test]
fn whole_fetches_from_disk() {
    let unread = Err("not asked");
    assert!(matches!(fetch("file:///there", unread, Err("")), (Ok(Some(b)), 1) if b == vec![1]));
    assert!(matches!(fetch("file:///gone", unread, Err("")), (Ok(None), 1)));
    assert!(matches!(fetch("file:///locked", unread, Err("")), (Err(FetchError::Io(t)), 1) if t == "locked"));
}

#[test]
fn whole_fetches_over_http() {
    let url = "https://example.invalid/a";
    assert!(matches!(fetch(url, Ok(200), Ok(vec![2])), (Ok(Some(b)), 2) if b == vec![2]));
    assert!(matches!(fetch(url, Ok(204), Ok(vec![])), (Ok(Some(b)), 2) if b.is_empty()));
    assert!(matches!(fetch(url, Ok(404), Ok(vec![2])), (Ok(None), 1)));
    assert!(matches!(fetch(url, Ok(500), Ok(vec![2])), (Err(FetchError::Status(t)), 1) if t == "500"));
    assert!(matches!(fetch(url, Err("down"), Ok(vec![2])), (Err(FetchError::Request(t)), 1) if t == "down"));
    assert!(matches!(fetch(url, Ok(200), Err("cut")), (Err(FetchError::Request(t)), 2) if t == "cut"));
}

#[test]
fn other_schemes_are_not_read_at_all() {
    match fetch("mbtiles://a", Ok(200), Ok(vec![2])) {
        (Err(FetchError::UnsupportedScheme(url)), 0) => assert_eq!(url, "mbtiles://a"),
        other => panic!("{other:?}"),
    }
}
