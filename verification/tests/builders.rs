use std::future::{ready, Ready};
use std::sync::{Arc, Mutex};

use maplibre_native::{
    fs_callback_is_sync, fs_invoke_async, fs_invoke_sync, register_file_source_callback,
    BridgeCall, FileSourceRequestCallback, FsResponse, ImageRenderer, ImageRendererBuilder, MapMode,
    MapRendererArgs, PendingCallback, PixelCount, PixelRatio, Static,
};
use tokio::runtime::{Builder, Handle, Id, Runtime};

#[derive(Debug, PartialEq)]
struct Options(&'static str);

impl Default for Options {
    fn default() -> Self {
        Options("default")
    }
}

type Fut = Ready<FsResponse>;
type RendererBuilder = ImageRendererBuilder<Options, Fut>;
type Callback = FileSourceRequestCallback<Fut>;

fn pixels(count: u32) -> PixelCount {
    PixelCount::new(count).unwrap()
}

fn runtime() -> Runtime {
    Builder::new_multi_thread().worker_threads(1).build().unwrap()
}

/// The callback that the calls register, if any, and what they make a renderer
/// from. Fails where the calls come in another order.
fn split(calls: Vec<BridgeCall<Options, Fut>>) -> (Option<Callback>, MapRendererArgs<Options>) {
    let mut callback = None;
    let mut args = None;
    for call in calls {
        assert!(args.is_none(), "a call after the renderer was made");
        match call {
            BridgeCall::RegisterFileSourceFactory(registered) => {
                assert!(callback.is_none(), "two registrations");
                callback = Some(registered);
            }
            BridgeCall::NewMapRenderer(made) => args = Some(made),
        }
    }
    (callback, args.unwrap())
}

/// The runtime on which a request to `callback` is served.
fn serving_runtime(callback: &Callback) -> Id {
    let served_on = Arc::new(Mutex::new(None));
    let seen = served_on.clone();
    let task = fs_invoke_async(
        callback,
        String::new(),
        0,
        move |_| *seen.lock().unwrap() = Some(Handle::current().id()),
        |future, sink| async move { sink.deliver(future.await) },
    );
    runtime().block_on(task).unwrap();
    let id = served_on.lock().unwrap().unwrap();
    id
}

#[test]
fn pixel_counts_are_not_zero() {
    assert!(PixelCount::new(0).is_none());
    assert_eq!(PixelCount::new(1).unwrap().get(), 1);
    assert_eq!(PixelCount::new(u32::MAX).unwrap().get(), u32::MAX);
}

#[test]
fn defaults() {
    for builder in [RendererBuilder::new(), RendererBuilder::default()] {
        assert!(builder.file_source_runtime_resolved());
        let (callback, args) = split(builder.build_static_renderer().calls);
        assert!(callback.is_none());
        assert_eq!(args.map_mode, MapMode::Static);
        assert_eq!(args.width, 512);
        assert_eq!(args.height, 512);
        assert_eq!(f32::from_bits(args.pixel_ratio.bits), 1.0);
        assert_eq!(args.resource_options, Options("default"));
    }
}

#[test]
fn every_option_arrives() {
    let setup = RendererBuilder::new()
        .with_size(pixels(1024), pixels(768))
        .with_pixel_ratio(PixelRatio { bits: 2.0f32.to_bits() })
        .with_resource_options(Options("set"))
        .build_static_renderer();
    let (callback, args) = split(setup.calls);
    assert!(callback.is_none());
    assert_eq!(args.width, 1024);
    assert_eq!(args.height, 768);
    assert_eq!(f32::from_bits(args.pixel_ratio.bits), 2.0);
    assert_eq!(args.resource_options, Options("set"));
}

#[test]
fn every_option_can_be_read_back() {
    let builder = RendererBuilder::new();
    assert!(builder.resource_options().is_none());
    assert!(builder.file_source_callback().is_none());
    assert!(builder.file_source_runtime().is_none());

    let rt = runtime();
    let builder = builder
        .with_size(pixels(10), pixels(20))
        .with_pixel_ratio(PixelRatio { bits: 1.5f32.to_bits() })
        .with_resource_options(Options("read"))
        .with_file_source_callback(|_, _| FsResponse::NoContent)
        .with_file_source_runtime(rt.handle().clone());
    assert_eq!(builder.width().get(), 10);
    assert_eq!(builder.height().get(), 20);
    assert_eq!(f32::from_bits(builder.pixel_ratio().bits), 1.5);
    assert_eq!(builder.resource_options(), &Some(Options("read")));
    assert!(matches!(builder.file_source_callback(), Some(PendingCallback::Sync(_))));
    assert_eq!(builder.file_source_runtime().as_ref().unwrap().id(), rt.handle().id());
}

#[test]
fn last_value_wins() {
    let setup = RendererBuilder::new()
        .with_size(pixels(1), pixels(2))
        .with_resource_options(Options("first"))
        .with_size(pixels(3), pixels(4))
        .with_resource_options(Options("second"))
        .build_tile_renderer();
    let (_, args) = split(setup.calls);
    assert_eq!((args.width, args.height), (3, 4));
    assert_eq!(args.resource_options, Options("second"));
}

#[test]
fn order_of_options_does_not_matter() {
    let ratio = PixelRatio { bits: 3.0f32.to_bits() };
    let one = RendererBuilder::new()
        .with_size(pixels(5), pixels(6))
        .with_pixel_ratio(ratio)
        .with_resource_options(Options("same"))
        .with_file_source_callback(|_, _| FsResponse::Success(vec![7]));
    let other = RendererBuilder::new()
        .with_file_source_callback(|_, _| FsResponse::Success(vec![7]))
        .with_resource_options(Options("same"))
        .with_pixel_ratio(ratio)
        .with_size(pixels(5), pixels(6));
    for builder in [one, other] {
        let (callback, args) = split(builder.build_tile_renderer().calls);
        assert_eq!((args.width, args.height), (5, 6));
        assert_eq!(args.pixel_ratio, ratio);
        assert_eq!(args.resource_options, Options("same"));
        assert_eq!(fs_invoke_sync(&callback.unwrap(), "", 0).data, vec![7]);
    }
}

#[test]
fn each_build_has_its_mode() {
    let (_, args) = split(RendererBuilder::new().build_static_renderer().calls);
    assert_eq!(args.map_mode, MapMode::Static);
    let (_, args) = split(RendererBuilder::new().build_tile_renderer().calls);
    assert_eq!(args.map_mode, MapMode::Tile);
    let (_, args) = split(RendererBuilder::new().build_continuous_renderer().calls);
    assert_eq!(args.map_mode, MapMode::Continuous);
}

#[test]
fn callback_is_registered_before_the_renderer_is_made() {
    let calls = RendererBuilder::new()
        .with_file_source_callback(|_, _| FsResponse::NoContent)
        .build_static_renderer()
        .calls;
    assert_eq!(calls.len(), 2);
    assert!(matches!(calls[0], BridgeCall::RegisterFileSourceFactory(_)));
    assert!(matches!(calls[1], BridgeCall::NewMapRenderer(_)));
}

#[test]
fn registered_closure_is_the_one_that_was_set() {
    let setup = RendererBuilder::new()
        .with_file_source_callback(|url, _| FsResponse::Success(url.as_bytes().to_vec()))
        .build_static_renderer();
    let callback = split(setup.calls).0.unwrap();
    assert!(fs_callback_is_sync(&callback));
    assert_eq!(fs_invoke_sync(&callback, "custom://x", 1).data, b"custom://x".to_vec());
}

#[test]
fn callbacks_replace_each_other() {
    let rt = runtime();
    let handle = rt.handle().clone();

    let setup = RendererBuilder::new()
        .with_file_source_runtime(handle.clone())
        .with_async_file_source_callback(|_, _| ready(FsResponse::NoContent))
        .with_file_source_callback(|_, _| FsResponse::NoContent)
        .build_static_renderer();
    assert!(fs_callback_is_sync(&split(setup.calls).0.unwrap()));

    let setup = RendererBuilder::new()
        .with_file_source_runtime(handle)
        .with_file_source_callback(|_, _| FsResponse::NoContent)
        .with_async_file_source_callback(|_, _| ready(FsResponse::NoContent))
        .build_static_renderer();
    assert!(!fs_callback_is_sync(&split(setup.calls).0.unwrap()));
}

#[test]
fn async_callback_without_a_runtime_cannot_be_built() {
    let builder = RendererBuilder::new()
        .with_async_file_source_callback(|_, _| ready(FsResponse::NoContent));
    assert!(!builder.file_source_runtime_resolved());

    let rt = runtime();
    let builder = builder.with_file_source_runtime(rt.handle().clone());
    assert!(builder.file_source_runtime_resolved());
    let callback = split(builder.build_tile_renderer().calls).0.unwrap();
    assert_eq!(serving_runtime(&callback), rt.handle().id());
}

#[test]
fn ambient_runtime_is_the_fallback() {
    let rt = runtime();
    let builder = {
        let _context = rt.enter();
        RendererBuilder::new()
            .with_async_file_source_callback(|_, _| ready(FsResponse::NoContent))
    };
    assert!(builder.file_source_runtime_resolved());
    let callback = split(builder.build_tile_renderer().calls).0.unwrap();
    assert_eq!(serving_runtime(&callback), rt.handle().id());
}

#[test]
fn given_context_is_the_fallback() {
    let rt = runtime();
    let builder = RendererBuilder::new().with_async_file_source_callback_in(
        Some(rt.handle().clone()),
        |_, _| ready(FsResponse::NoContent),
    );
    assert!(builder.file_source_runtime_resolved());
    let callback = split(builder.build_tile_renderer().calls).0.unwrap();
    assert_eq!(serving_runtime(&callback), rt.handle().id());

    let builder = RendererBuilder::new()
        .with_async_file_source_callback_in(None, |_, _| ready(FsResponse::NoContent));
    assert!(!builder.file_source_runtime_resolved());
}

#[test]
fn set_runtime_takes_priority_over_the_ambient_one() {
    let ambient = runtime();
    let set = runtime();
    let context = ambient.enter();

    let before = RendererBuilder::new()
        .with_file_source_runtime(set.handle().clone())
        .with_async_file_source_callback(|_, _| ready(FsResponse::NoContent))
        .build_continuous_renderer();
    let after = RendererBuilder::new()
        .with_async_file_source_callback(|_, _| ready(FsResponse::NoContent))
        .with_file_source_runtime(set.handle().clone())
        .build_continuous_renderer();
    drop(context);

    let callback = split(before.calls).0.unwrap();
    assert_eq!(serving_runtime(&callback), set.handle().id());
    let callback = split(after.calls).0.unwrap();
    assert_eq!(serving_runtime(&callback), set.handle().id());
}

#[test]
fn runtime_alone_registers_nothing() {
    let rt = runtime();
    let builder = RendererBuilder::new().with_file_source_runtime(rt.handle().clone());
    assert!(builder.file_source_runtime_resolved());
    assert!(split(builder.build_static_renderer().calls).0.is_none());
}

#[test]
fn registration_without_a_builder() {
    let callback = Callback::new_sync(|_, _| FsResponse::Success(vec![9]));
    match register_file_source_callback::<Options, Fut>(callback) {
        BridgeCall::RegisterFileSourceFactory(registered) => {
            assert_eq!(fs_invoke_sync(&registered, "", 0).data, vec![9]);
        }
        BridgeCall::NewMapRenderer(_) => panic!("no renderer was asked for"),
    }
}

#[test]
fn new_renderer_has_no_style() {
    let renderer: ImageRenderer<Static, u64> = ImageRenderer::from_instance(5);
    assert_eq!(renderer.instance, 5);
    assert!(!renderer.style_specified);
}

/// A stand-in for the process-global native side.
#[derive(Default)]
struct Native {
    factory: Option<std::rc::Rc<Callback>>,
    renderers: Vec<Option<std::rc::Rc<Callback>>>,
}

impl Native {
    fn perform(&mut self, calls: Vec<BridgeCall<Options, Fut>>) {
        for call in calls {
            match call {
                BridgeCall::RegisterFileSourceFactory(callback) => {
                    self.factory = Some(std::rc::Rc::new(callback));
                }
                BridgeCall::NewMapRenderer(_) => self.renderers.push(self.factory.clone()),
            }
        }
    }

    fn request(&self, renderer: usize) -> Option<Vec<u8>> {
        let callback = self.renderers[renderer].as_ref()?;
        Some(fs_invoke_sync(callback, "", 0).data)
    }
}

#[test]
fn later_build_leaves_earlier_renderers_alone() {
    let mut native = Native::default();
    native.perform(RendererBuilder::new().build_static_renderer().calls);
    native.perform(
        RendererBuilder::new()
            .with_file_source_callback(|_, _| FsResponse::Success(vec![1]))
            .build_static_renderer()
            .calls,
    );
    native.perform(
        RendererBuilder::new()
            .with_file_source_callback(|_, _| FsResponse::Success(vec![2]))
            .build_tile_renderer()
            .calls,
    );
    native.perform(RendererBuilder::new().build_tile_renderer().calls);
    assert_eq!(native.request(0), None);
    assert_eq!(native.request(1), Some(vec![1]));
    assert_eq!(native.request(2), Some(vec![2]));
    assert_eq!(native.request(3), Some(vec![2]));
}

#[test]
fn callback_registered_ahead_is_taken() {
    let mut native = Native::default();
    let ahead = Callback::new_sync(|_, _| FsResponse::Success(vec![3]));
    native.perform(vec![register_file_source_callback(ahead)]);
    native.perform(RendererBuilder::new().build_tile_renderer().calls);
    assert_eq!(native.request(0), Some(vec![3]));
}
