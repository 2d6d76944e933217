use std::future::{ready, Ready};
use std::sync::{Arc, Mutex};

use maplibre_native::{
    fs_callback_is_sync, fs_invoke_async, fs_invoke_sync, FileSourceRequestCallback,
    FsErrorReason, FsResponse, ResourceKind, RustFsResponse,
};
use tokio::runtime::{Builder, Handle, Runtime};

type Callback = FileSourceRequestCallback<Ready<FsResponse>>;

fn runtime() -> Runtime {
    Builder::new_multi_thread().worker_threads(2).build().unwrap()
}

/// Answers tiles with the bytes of their URL, glyphs with an error, and the rest
/// with a miss.
fn answer(url: &str, kind: ResourceKind) -> FsResponse {
    match kind {
        ResourceKind::Tile => FsResponse::Success(url.as_bytes().to_vec()),
        ResourceKind::Glyphs => {
            FsResponse::Error { reason: FsErrorReason::RateLimit, message: url.to_owned() }
        }
        _ => FsResponse::NoContent,
    }
}

#[test]
fn sync_callback_takes_the_inline_path() {
    let callback = Callback::new_sync(answer);
    assert!(fs_callback_is_sync(&callback));
    assert_eq!(callback.kind().debug_name(), "FsCallbackKind::Sync");
    assert_eq!(callback.debug_text(), "FileSourceRequestCallback { kind: FsCallbackKind::Sync }");
}

#[test]
fn async_callback_does_not_take_the_inline_path() {
    let rt = runtime();
    let callback =
        Callback::new_async(rt.handle().clone(), |url: String, kind| ready(answer(&url, kind)));
    assert!(!fs_callback_is_sync(&callback));
    assert_eq!(callback.debug_text(), "FileSourceRequestCallback { kind: FsCallbackKind::Async }");
}

#[test]
fn sync_dispatch_hands_over_url_and_kind() {
    let seen = Arc::new(Mutex::new(Vec::new()));
    let log = seen.clone();
    let callback = Callback::new_sync(move |url: &str, kind: ResourceKind| {
        log.lock().unwrap().push((url.to_owned(), kind));
        FsResponse::NoContent
    });
    fs_invoke_sync(&callback, "mbtiles://a", 3);
    fs_invoke_sync(&callback, "file:///b", 200);
    assert_eq!(
        *seen.lock().unwrap(),
        vec![
            ("mbtiles://a".to_owned(), ResourceKind::Tile),
            ("file:///b".to_owned(), ResourceKind::Unknown),
        ]
    );
}

#[test]
fn sync_dispatch_flattens_the_answer() {
    let callback = Callback::new_sync(answer);

    let wire = fs_invoke_sync(&callback, "abc", 3);
    assert_eq!(wire.data, b"abc".to_vec());
    assert_eq!(wire.error_reason, 0);
    assert!(!wire.no_content);

    let wire = fs_invoke_sync(&callback, "abc", 4);
    assert!(wire.data.is_empty());
    assert_eq!(wire.error_reason, 5);
    assert_eq!(wire.error_message, "abc");

    let wire = fs_invoke_sync(&callback, "abc", 1);
    assert!(wire.no_content);
}

#[test]
fn async_dispatch_delivers_what_the_future_comes_to() {
    let rt = runtime();
    let callback =
        Callback::new_async(rt.handle().clone(), |url: String, kind| ready(answer(&url, kind)));
    let request = |kind: u8| -> RustFsResponse {
        let delivered = Arc::new(Mutex::new(None));
        let slot = delivered.clone();
        let task = fs_invoke_async(
            &callback,
            "abc".to_owned(),
            kind,
            move |wire| *slot.lock().unwrap() = Some(wire),
            |future, sink| async move { sink.deliver(future.await) },
        );
        rt.block_on(task).unwrap();
        let wire = delivered.lock().unwrap().take().unwrap();
        wire
    };

    let wire = request(3);
    assert_eq!(wire.data, b"abc".to_vec());
    assert_eq!(wire.error_reason, 0);
    assert!(!wire.no_content);

    let wire = request(4);
    assert!(wire.data.is_empty());
    assert_eq!(wire.error_reason, 5);
    assert_eq!(wire.error_message, "abc");

    assert!(request(255).no_content);
}

#[test]
fn async_dispatch_runs_on_the_runtime_of_the_callback() {
    let rt = runtime();
    let other = runtime();
    let callback = Callback::new_async(rt.handle().clone(), |_, _| ready(FsResponse::NoContent));
    let served_on = Arc::new(Mutex::new(None));
    let seen = served_on.clone();
    let task = fs_invoke_async(
        &callback,
        String::new(),
        0,
        move |_| *seen.lock().unwrap() = Some(Handle::current().id()),
        |future, sink| async move { sink.deliver(future.await) },
    );
    other.block_on(task).unwrap();
    assert_eq!(*served_on.lock().unwrap(), Some(rt.handle().id()));
}

#[test]
fn task_that_panics_has_no_output() {
    let rt = runtime();
    let callback = Callback::new_async(rt.handle().clone(), |_, _| ready(FsResponse::NoContent));
    let task = fs_invoke_async(
        &callback,
        String::new(),
        0,
        |_| panic!("the receiver is gone"),
        |future, sink| async move { sink.deliver(future.await) },
    );
    assert!(rt.block_on(task).is_err());
}

#[test]
fn every_inline_request_is_answered_for_itself() {
    let runs = Arc::new(Mutex::new(0));
    let count = runs.clone();
    let callback = Callback::new_sync(move |url: &str, kind: ResourceKind| {
        *count.lock().unwrap() += 1;
        answer(url, kind)
    });
    let requests = [("a", 4), ("b", 3), ("a", 4), ("b", 3), ("b", 3), ("c", 1)];
    for (url, kind) in requests {
        let wire = fs_invoke_sync(&callback, url, kind);
        match kind {
            3 => assert_eq!(wire.data, url.as_bytes().to_vec()),
            4 => assert_eq!((wire.error_reason, wire.error_message.as_str()), (5, url)),
            _ => assert!(wire.no_content),
        }
    }
    assert_eq!(*runs.lock().unwrap(), requests.len());
}

#[test]
fn async_dispatch_delivers_what_inline_dispatch_returns() {
    let rt = runtime();
    let inline = Callback::new_sync(answer);
    let spawned =
        Callback::new_async(rt.handle().clone(), |url: String, kind| ready(answer(&url, kind)));
    for url in ["", "mbtiles://a", "file:///b"] {
        for kind in 0..=u8::MAX {
            let returned = fs_invoke_sync(&inline, url, kind);
            let delivered = Arc::new(Mutex::new(None));
            let slot = delivered.clone();
            let task = fs_invoke_async(
                &spawned,
                url.to_owned(),
                kind,
                move |wire| *slot.lock().unwrap() = Some(wire),
                |future, sink| async move { sink.deliver(future.await) },
            );
            rt.block_on(task).unwrap();
            let delivered = delivered.lock().unwrap().take().unwrap();
            assert_eq!(delivered.data, returned.data);
            assert_eq!(delivered.error_reason, returned.error_reason);
            assert_eq!(delivered.error_message, returned.error_message);
            assert_eq!(delivered.no_content, returned.no_content);
        }
    }
}
