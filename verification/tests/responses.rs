use maplibre_native::{ffi_response, FsErrorReason, FsResponse};

const REASONS: [(u8, FsErrorReason); 5] = [
    (2, FsErrorReason::NotFound),
    (3, FsErrorReason::Server),
    (4, FsErrorReason::Connection),
    (5, FsErrorReason::RateLimit),
    (6, FsErrorReason::Other),
];

#[test]
fn every_reason_has_its_byte() {
    for (code, reason) in REASONS {
        assert_eq!(reason.as_u8(), code);
    }
}

#[test]
fn no_reason_has_the_byte_of_no_error_or_of_success() {
    for (_, reason) in REASONS {
        assert!(reason.as_u8() > 1);
    }
}

#[test]
fn success_carries_the_body() {
    let wire = ffi_response(FsResponse::Success(vec![1, 2, 3]));
    assert_eq!(wire.data, vec![1, 2, 3]);
    assert_eq!(wire.error_reason, 0);
    assert_eq!(wire.error_message, "");
    assert!(!wire.no_content);
}

#[test]
fn empty_body_is_no_miss() {
    let wire = ffi_response(FsResponse::Success(Vec::new()));
    assert!(wire.data.is_empty());
    assert_eq!(wire.error_reason, 0);
    assert!(!wire.no_content);
}

#[test]
fn miss_has_neither_body_nor_error() {
    let wire = ffi_response(FsResponse::NoContent);
    assert!(wire.data.is_empty());
    assert_eq!(wire.error_reason, 0);
    assert_eq!(wire.error_message, "");
    assert!(wire.no_content);
}

#[test]
fn error_carries_reason_and_message() {
    for (code, reason) in REASONS {
        let wire = ffi_response(FsResponse::Error { reason, message: "went wrong".to_owned() });
        assert!(wire.data.is_empty());
        assert_eq!(wire.error_reason, code);
        assert_eq!(wire.error_message, "went wrong");
        assert!(!wire.no_content);
    }
}

#[test]
fn different_answers_have_different_flat_forms() {
    let answers = || {
        vec![
            FsResponse::Success(Vec::new()),
            FsResponse::Success(vec![0]),
            FsResponse::NoContent,
            FsResponse::Error { reason: FsErrorReason::Other, message: String::new() },
            FsResponse::Error { reason: FsErrorReason::Server, message: String::new() },
            FsResponse::Error { reason: FsErrorReason::Other, message: "m".to_owned() },
        ]
    };
    for (i, a) in answers().into_iter().enumerate() {
        let a = ffi_response(a);
        for (j, b) in answers().into_iter().enumerate() {
            let b = ffi_response(b);
            let same = a.data == b.data
                && a.error_reason == b.error_reason
                && a.error_message == b.error_message
                && a.no_content == b.no_content;
            assert_eq!(same, i == j);
        }
    }
}
