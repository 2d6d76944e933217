//! A request from end to end: an async callback is set on a builder, the
//! renderer is built, and the native side's request for a style is served.

use std::future::Future;
use std::pin::Pin;
use std::sync::atomic::{AtomicUsize, Ordering};
use std::sync::{Arc, Mutex};

use maplibre_native::{
    fs_callback_is_sync, fs_invoke_async, BridgeCall, FsResponse, ImageRendererBuilder,
    MapMode, PixelCount, ResourceKind, RustFsResponse,
};

const INLINE_STYLE: &str = r#"{
    "version": 8,
    "name": "callback-test",
    "sources": {},
    "layers": [
        { "id": "bg", "type": "background", "paint": { "background-color": "rgb(0, 200, 100)" } }
    ]
}"#;

type FsFuture = Pin<Box<dyn Future<Output = FsResponse> + Send>>;

#[test]
fn async_file_source_callback_serves_inline_style() {
    let rt = tokio::runtime::Builder::new_multi_thread().worker_threads(2).build().unwrap();
    let _context = rt.enter();

    let call_count = Arc::new(AtomicUsize::new(0));
    let call_count_cb = call_count.clone();

    let builder = ImageRendererBuilder::<(), FsFuture>::new()
        .with_size(PixelCount::new(64).unwrap(), PixelCount::new(64).unwrap())
        .with_async_file_source_callback(move |url: String, _kind: ResourceKind| -> FsFuture {
            let call_count_cb = call_count_cb.clone();
            Box::pin(async move {
                tokio::task::yield_now().await;
                call_count_cb.fetch_add(1, Ordering::SeqCst);

                if url.ends_with("/inline-style.json") {
                    FsResponse::Success(INLINE_STYLE.as_bytes().to_vec())
                } else {
                    FsResponse::NoContent
                }
            })
        });
    assert!(builder.file_source_runtime_resolved());
    let mut calls = builder.build_tile_renderer().calls.into_iter();

    let callback = match calls.next() {
        Some(BridgeCall::RegisterFileSourceFactory(callback)) => callback,
        _ => panic!("the callback is registered first"),
    };
    let args = match calls.next() {
        Some(BridgeCall::NewMapRenderer(args)) => args,
        _ => panic!("the renderer is made next"),
    };
    assert!(calls.next().is_none());
    assert_eq!(args.map_mode, MapMode::Tile);
    assert_eq!(args.width, 64);
    assert_eq!(args.height, 64);

    assert!(!fs_callback_is_sync(&callback));
    let request = |url: &str| -> RustFsResponse {
        let delivered = Arc::new(Mutex::new(None));
        let slot = delivered.clone();
        let task = fs_invoke_async(
            &callback,
            url.to_owned(),
            ResourceKind::Style.as_u8(),
            move |wire| *slot.lock().unwrap() = Some(wire),
            |future, sink| async move { sink.deliver(future.await) },
        );
        rt.block_on(task).unwrap();
        let wire = delivered.lock().unwrap().take().unwrap();
        wire
    };

    let style = request("https://example.invalid/inline-style.json");
    assert_eq!(style.data, INLINE_STYLE.as_bytes().to_vec());
    assert_eq!(style.error_reason, 0);
    assert!(!style.no_content);

    let calls = call_count.load(Ordering::SeqCst);
    assert!(calls >= 1, "expected at least one async callback invocation, got {calls}");

    assert!(request("https://example.invalid/other.json").no_content);
}
