//! Renderer configuration and the builder that collects it.

use std::future::Future;
use std::marker::PhantomData;

use tokio::runtime::{Handle, TryCurrentError};
use vstd::prelude::*;

use crate::bridge::{
    BridgeCall, Continuous, MapMode, MapRendererArgs, PixelRatio, Static, Tile,
    ONE_BITS,
};
use crate::file_source::{
    AsyncCallback, FileSourceRequestCallback, FsCallbackKind, SyncCallback,
};
use crate::resource::ResourceKind;
use crate::response::FsResponse;

verus! {

/// Width and height, in pixels, of an image whose size was not set.
pub const DEFAULT_SIZE: u32 = 512;

/// A number of pixels that is not zero.
#[derive(Debug, Clone, Copy)]
pub struct PixelCount {
    count: u32,
}

impl View for PixelCount {
    type V = u32;

    closed spec fn view(&self) -> u32 {
        self.count
    }
}

impl PixelCount {
    #[verifier::type_invariant]
    spec fn not_zero(self) -> bool {
        self.count > 0
    }

    /// The pixel count `count`, unless it is zero.
    pub fn new(count: u32) -> (pixels: Option<Self>)
        ensures
            pixels is None <==> count == 0,
            pixels matches Some(p) ==> p@ == count,
    {
        if count == 0 {
            None
        } else {
            Some(PixelCount { count })
        }
    }

    /// The count.
    pub fn get(self) -> (count: u32)
        ensures
            count == self@,
            count > 0,
    {
        proof {
            use_type_invariant(&self);
        }
        self.count
    }
}

/// A callback that was handed to a builder. Which runtime an async one is
/// spawned on is settled when the renderer is built.
#[verifier::reject_recursive_types(Fut)]
pub enum PendingCallback<Fut> {
    Sync(SyncCallback),
    Async {
        callback: AsyncCallback<Fut>,
        /// The runtime in whose context the callback was handed over.
        ambient: Option<Handle>,
    },
}

/// What a builder has collected.
#[verifier::reject_recursive_types(Fut)]
pub struct BuilderView<R, Fut> {
    pub width: u32,
    pub height: u32,
    pub pixel_ratio: PixelRatio,
    pub resource_options: Option<R>,
    pub file_source_callback: Option<PendingCallback<Fut>>,
    pub file_source_runtime: Option<Handle>,
}

impl<R, Fut> BuilderView<R, Fut> {
    /// What a builder holds before anything is set.
    pub open spec fn defaults() -> Self {
        BuilderView {
            width: DEFAULT_SIZE,
            height: DEFAULT_SIZE,
            pixel_ratio: PixelRatio { bits: ONE_BITS },
            resource_options: None,
            file_source_callback: None,
            file_source_runtime: None,
        }
    }

    pub open spec fn with_size(self, width: u32, height: u32) -> Self {
        BuilderView { width, height, ..self }
    }

    pub open spec fn with_pixel_ratio(self, pixel_ratio: PixelRatio) -> Self {
        BuilderView { pixel_ratio, ..self }
    }

    pub open spec fn with_resource_options(self, resource_options: R) -> Self {
        BuilderView { resource_options: Some(resource_options), ..self }
    }

    pub open spec fn with_callback(self, callback: PendingCallback<Fut>) -> Self {
        BuilderView { file_source_callback: Some(callback), ..self }
    }

    pub open spec fn with_runtime(self, handle: Handle) -> Self {
        BuilderView { file_source_runtime: Some(handle), ..self }
    }

    /// The runtime for a callback that was handed over in the context of
    /// `ambient`: the one that was set, or else that context.
    pub open spec fn runtime_for(self, ambient: Option<Handle>) -> Option<Handle> {
        match self.file_source_runtime {
            Some(handle) => Some(handle),
            None => ambient,
        }
    }

    /// Whether a renderer can be built: an async callback has a runtime.
    pub open spec fn runtime_resolved(self) -> bool {
        self.file_source_callback matches Some(PendingCallback::Async { ambient, .. })
            ==> self.runtime_for(ambient) is Some
    }

    /// The callback that building registers, if any.
    pub open spec fn registered(self) -> Option<FsCallbackKind<Fut>> {
        match self.file_source_callback {
            None => None,
            Some(PendingCallback::Sync(callback)) => Some(FsCallbackKind::Sync(callback)),
            Some(PendingCallback::Async { callback, ambient }) => Some(
                FsCallbackKind::Async { callback, runtime: self.runtime_for(ambient)->0 },
            ),
        }
    }
}

impl<R: Default, Fut> BuilderView<R, Fut> {
    /// Whether `args` are what a map renderer of mode `map_mode` is made from.
    /// Resource options that were not set are the default ones.
    pub open spec fn gives_args(self, map_mode: MapMode, args: MapRendererArgs<R>) -> bool {
        &&& args.map_mode == map_mode
        &&& args.width == self.width
        &&& args.height == self.height
        &&& args.pixel_ratio == self.pixel_ratio
        &&& match self.resource_options {
            Some(options) => args.resource_options == options,
            None => call_ensures(R::default, (), args.resource_options),
        }
    }

    /// Whether `calls` are what has to be asked of the native side, in this
    /// order, to make a renderer of mode `map_mode`. The callback comes first:
    /// a map renderer takes its source of resources when it is made.
    pub open spec fn gives_calls(self, map_mode: MapMode, calls: Seq<BridgeCall<R, Fut>>) -> bool {
        match self.registered() {
            None => {
                &&& calls.len() == 1
                &&& calls[0] matches BridgeCall::NewMapRenderer(args)
                &&& self.gives_args(map_mode, args)
            },
            Some(kind) => {
                &&& calls.len() == 2
                &&& calls[0] matches BridgeCall::RegisterFileSourceFactory(callback)
                &&& callback@ == kind
                &&& calls[1] matches BridgeCall::NewMapRenderer(args)
                &&& self.gives_args(map_mode, args)
            },
        }
    }
}

/// Builder for renderers. `R` is the type of the resource options, and `Fut`
/// the type of future that an async callback gives.
#[verifier::reject_recursive_types(Fut)]
pub struct ImageRendererBuilder<R, Fut> {
    /// Image width in pixels
    width: PixelCount,
    /// Image height in pixels
    height: PixelCount,
    /// Pixel ratio for high-DPI displays
    pixel_ratio: PixelRatio,
    resource_options: Option<R>,
    /// Callback that building registers as the process-global source of
    /// resources.
    file_source_callback: Option<PendingCallback<Fut>>,
    /// Runtime on which the futures of an async callback are spawned. Without
    /// one, it is the runtime in whose context the callback was set.
    file_source_runtime: Option<Handle>,
}

impl<R, Fut> View for ImageRendererBuilder<R, Fut> {
    type V = BuilderView<R, Fut>;

    closed spec fn view(&self) -> BuilderView<R, Fut> {
        BuilderView {
            width: self.width@,
            height: self.height@,
            pixel_ratio: self.pixel_ratio,
            resource_options: self.resource_options,
            file_source_callback: self.file_source_callback,
            file_source_runtime: self.file_source_runtime,
        }
    }
}

impl<R, Fut> Default for ImageRendererBuilder<R, Fut> {
    fn default() -> (builder: Self)
        ensures
            builder@ == BuilderView::<R, Fut>::defaults(),
            builder@.width == 512,
            builder@.height == 512,
            builder@.pixel_ratio.bits == 0x3f80_0000,
            builder@.resource_options is None,
            builder@.file_source_callback is None,
            builder@.file_source_runtime is None,
    {
        ImageRendererBuilder {
            width: PixelCount { count: DEFAULT_SIZE },
            height: PixelCount { count: DEFAULT_SIZE },
            pixel_ratio: PixelRatio { bits: ONE_BITS },
            resource_options: None,
            file_source_callback: None,
            file_source_runtime: None,
        }
    }
}

impl<R, Fut> ImageRendererBuilder<R, Fut> {
    /// Creates a new builder with default values
    #[must_use]
    pub fn new() -> (builder: Self)
        ensures
            builder@ == BuilderView::<R, Fut>::defaults(),
            builder@.width == 512,
            builder@.height == 512,
            builder@.pixel_ratio.bits == 0x3f80_0000,
            builder@.resource_options is None,
            builder@.file_source_callback is None,
            builder@.file_source_runtime is None,
    {
        Self::default()
    }

    /// Sets image dimensions
    ///
    /// Default: `512` x `512`
    #[must_use]
    pub fn with_size(self, width: PixelCount, height: PixelCount) -> (builder: Self)
        ensures
            builder@ == self@.with_size(width@, height@),
            builder@ == (BuilderView { width: width@, height: height@, ..self@ }),
    {
        ImageRendererBuilder { width, height, ..self }
    }

    /// Sets pixel ratio for high-DPI displays
    ///
    /// Default: the number one
    #[must_use]
    pub fn with_pixel_ratio(self, pixel_ratio: PixelRatio) -> (builder: Self)
        ensures
            builder@ == self@.with_pixel_ratio(pixel_ratio),
            builder@ == (BuilderView { pixel_ratio, ..self@ }),
    {
        ImageRendererBuilder { pixel_ratio, ..self }
    }

    /// Sets the resource options
    #[must_use]
    pub fn with_resource_options(self, resource_options: R) -> (builder: Self)
        ensures
            builder@ == self@.with_resource_options(resource_options),
            builder@ == (BuilderView { resource_options: Some(resource_options), ..self@ }),
    {
        ImageRendererBuilder { resource_options: Some(resource_options), ..self }
    }

    /// Install a synchronous closure as the source of resources.
    ///
    /// The closure is invoked for every resource that the renderer needs, and
    /// replaces the default source entirely, so it must handle every URL scheme
    /// that the style refers to. It runs inline on whichever thread makes the
    /// request, which waits for it: use
    /// [`with_async_file_source_callback`](Self::with_async_file_source_callback)
    /// where it has to wait itself.
    ///
    /// Registration is process-global, and takes place when the renderer is
    /// built. It holds for renderers that are built from then on; those that
    /// exist keep the callback they took.
    ///
    /// A callback that was set before, sync or async, is replaced.
    #[must_use]
    pub fn with_file_source_callback<F>(self, callback: F) -> (builder: Self) where
        F: Fn(&str, ResourceKind) -> FsResponse + Send + Sync + 'static,

        ensures
            builder@.file_source_callback matches Some(PendingCallback::Sync(stored))
                && stored.wraps(callback) && builder@ == self@.with_callback(
                PendingCallback::Sync(stored),
            ) && builder@ == (BuilderView {
                file_source_callback: Some(PendingCallback::Sync(stored)),
                ..self@
            }),
    {
        ImageRendererBuilder {
            file_source_callback: Some(PendingCallback::Sync(SyncCallback::new(callback))),
            ..self
        }
    }

    /// Install an async closure as the source of resources.
    ///
    /// For each request the future that the closure gives is spawned on a tokio
    /// runtime: the one passed to
    /// [`with_file_source_runtime`](Self::with_file_source_runtime), or else the
    /// one in whose context this method is called. If there is neither, the
    /// renderer cannot be built.
    ///
    /// A callback that was set before, sync or async, is replaced.
    #[must_use]
    pub fn with_async_file_source_callback<F>(self, callback: F) -> (builder: Self) where
        F: Fn(String, ResourceKind) -> Fut + Send + Sync + 'static,
        Fut: Future<Output = FsResponse> + Send + 'static,

        ensures
            builder@.file_source_callback matches Some(
                PendingCallback::Async { callback: stored, ambient },
            ) && stored.wraps(callback) && builder@ == self@.with_callback(
                PendingCallback::Async { callback: stored, ambient },
            ) && builder@ == (BuilderView {
                file_source_callback: Some(PendingCallback::Async { callback: stored, ambient }),
                ..self@
            }) && (self@.file_source_runtime is Some ==> ambient is None) && (
            self@.file_source_runtime is None ==> exists|current: Result<Handle, TryCurrentError>|
                #[trigger] call_ensures(Handle::try_current, (), current) && ambient == (
                match current {
                    Ok(handle) => Some(handle),
                    Err(_) => None,
                })),
    {
        let ambient = if self.file_source_runtime.is_some() {
            None
        } else {
            let current = Handle::try_current();
            assert(call_ensures(Handle::try_current, (), current));
            current.ok()
        };
        self.with_async_file_source_callback_in(ambient, callback)
    }

    /// As [`with_async_file_source_callback`](Self::with_async_file_source_callback)
    /// does in the context of the runtime `ambient`, or in that of none.
    #[must_use]
    pub fn with_async_file_source_callback_in<F>(
        self,
        ambient: Option<Handle>,
        callback: F,
    ) -> (builder: Self) where
        F: Fn(String, ResourceKind) -> Fut + Send + Sync + 'static,
        Fut: Future<Output = FsResponse> + Send + 'static,

        ensures
            builder@.file_source_callback matches Some(
                PendingCallback::Async { callback: stored, ambient: context },
            ) && stored.wraps(callback) && context == ambient && builder@ == self@.with_callback(
                PendingCallback::Async { callback: stored, ambient },
            ) && builder@ == (BuilderView {
                file_source_callback: Some(PendingCallback::Async { callback: stored, ambient }),
                ..self@
            }),
    {
        ImageRendererBuilder {
            file_source_callback: Some(
                PendingCallback::Async { callback: AsyncCallback::new(callback), ambient },
            ),
            ..self
        }
    }

    /// Provide the tokio runtime on which the futures of an async callback are
    /// spawned. It takes priority over the one in whose context the callback is
    /// set, and counts for a callback that was set before as for one that is set
    /// after.
    #[must_use]
    pub fn with_file_source_runtime(self, handle: Handle) -> (builder: Self)
        ensures
            builder@ == self@.with_runtime(handle),
            builder@ == (BuilderView { file_source_runtime: Some(handle), ..self@ }),
    {
        ImageRendererBuilder { file_source_runtime: Some(handle), ..self }
    }

    /// Image width in pixels
    pub fn width(&self) -> (width: PixelCount)
        ensures
            width@ == self@.width,
    {
        self.width
    }

    /// Image height in pixels
    pub fn height(&self) -> (height: PixelCount)
        ensures
            height@ == self@.height,
    {
        self.height
    }

    /// Pixel ratio for high-DPI displays
    pub fn pixel_ratio(&self) -> (pixel_ratio: PixelRatio)
        ensures
            pixel_ratio == self@.pixel_ratio,
    {
        self.pixel_ratio
    }

    /// The resource options, if they were set
    pub fn resource_options(&self) -> (resource_options: &Option<R>)
        ensures
            *resource_options == self@.resource_options,
    {
        &self.resource_options
    }

    /// The callback, if one was set
    pub fn file_source_callback(&self) -> (callback: &Option<PendingCallback<Fut>>)
        ensures
            *callback == self@.file_source_callback,
    {
        &self.file_source_callback
    }

    /// The runtime for an async callback, if one was set
    pub fn file_source_runtime(&self) -> (runtime: &Option<Handle>)
        ensures
            *runtime == self@.file_source_runtime,
    {
        &self.file_source_runtime
    }

    /// Whether the renderer can be built: where the callback is an async one,
    /// there is a runtime for it.
    pub fn file_source_runtime_resolved(&self) -> (resolved: bool)
        ensures
            resolved == self@.runtime_resolved(),
            !resolved <==> self@.file_source_runtime is None && (
            self@.file_source_callback matches Some(PendingCallback::Async { ambient, .. })
                && ambient is None),
    {
        match &self.file_source_callback {
            Some(PendingCallback::Async { ambient, .. }) => self.file_source_runtime.is_some()
                || ambient.is_some(),
            _ => true,
        }
    }
}

impl<R: Default, Fut> ImageRendererBuilder<R, Fut> {
    /// Builds a static image renderer
    #[must_use]
    pub fn build_static_renderer(self) -> (setup: RendererSetup<Static, R, Fut>)
        requires
            self@.runtime_resolved(),
        ensures
            self@.gives_calls(MapMode::Static, setup.calls@),
            setup.not_empty(),
            setup.calls@.last() matches BridgeCall::NewMapRenderer(args) && args.map_mode
                == MapMode::Static && args.width == self@.width && args.height == self@.height
                && args.pixel_ratio == self@.pixel_ratio && (
            self@.resource_options matches Some(options) ==> args.resource_options == options) && (
            self@.resource_options is None ==> call_ensures(
                R::default,
                (),
                args.resource_options,
            )),
            setup.calls@.len() == (if self@.file_source_callback is Some {
                2nat
            } else {
                1nat
            }),
            self@.file_source_callback matches Some(PendingCallback::Sync(callback)) ==> (
            setup.calls@[0] matches BridgeCall::RegisterFileSourceFactory(registered)
                && registered@ == FsCallbackKind::<Fut>::Sync(callback)),
            self@.file_source_callback matches Some(PendingCallback::Async { callback, ambient })
                ==> (setup.calls@[0] matches BridgeCall::RegisterFileSourceFactory(registered) && (
            registered@ matches FsCallbackKind::Async { callback: stored, runtime } && stored
                == callback && (self@.file_source_runtime matches Some(handle) ==> runtime
                == handle) && (self@.file_source_runtime is None ==> ambient == Some(runtime)))),
    {
        RendererSetup::new(MapMode::Static, self)
    }

    /// Builds a tile renderer
    #[must_use]
    pub fn build_tile_renderer(self) -> (setup: RendererSetup<Tile, R, Fut>)
        requires
            self@.runtime_resolved(),
        ensures
            self@.gives_calls(MapMode::Tile, setup.calls@),
            setup.not_empty(),
            setup.calls@.last() matches BridgeCall::NewMapRenderer(args) && args.map_mode
                == MapMode::Tile && args.width == self@.width && args.height == self@.height
                && args.pixel_ratio == self@.pixel_ratio && (
            self@.resource_options matches Some(options) ==> args.resource_options == options) && (
            self@.resource_options is None ==> call_ensures(
                R::default,
                (),
                args.resource_options,
            )),
            setup.calls@.len() == (if self@.file_source_callback is Some {
                2nat
            } else {
                1nat
            }),
            self@.file_source_callback matches Some(PendingCallback::Sync(callback)) ==> (
            setup.calls@[0] matches BridgeCall::RegisterFileSourceFactory(registered)
                && registered@ == FsCallbackKind::<Fut>::Sync(callback)),
            self@.file_source_callback matches Some(PendingCallback::Async { callback, ambient })
                ==> (setup.calls@[0] matches BridgeCall::RegisterFileSourceFactory(registered) && (
            registered@ matches FsCallbackKind::Async { callback: stored, runtime } && stored
                == callback && (self@.file_source_runtime matches Some(handle) ==> runtime
                == handle) && (self@.file_source_runtime is None ==> ambient == Some(runtime)))),
    {
        RendererSetup::new(MapMode::Tile, self)
    }

    /// Builds a continuous renderer
    #[must_use]
    pub fn build_continuous_renderer(self) -> (setup: RendererSetup<Continuous, R, Fut>)
        requires
            self@.runtime_resolved(),
        ensures
            self@.gives_calls(MapMode::Continuous, setup.calls@),
            setup.not_empty(),
            setup.calls@.last() matches BridgeCall::NewMapRenderer(args) && args.map_mode
                == MapMode::Continuous && args.width == self@.width && args.height == self@.height
                && args.pixel_ratio == self@.pixel_ratio && (
            self@.resource_options matches Some(options) ==> args.resource_options == options) && (
            self@.resource_options is None ==> call_ensures(
                R::default,
                (),
                args.resource_options,
            )),
            setup.calls@.len() == (if self@.file_source_callback is Some {
                2nat
            } else {
                1nat
            }),
            self@.file_source_callback matches Some(PendingCallback::Sync(callback)) ==> (
            setup.calls@[0] matches BridgeCall::RegisterFileSourceFactory(registered)
                && registered@ == FsCallbackKind::<Fut>::Sync(callback)),
            self@.file_source_callback matches Some(PendingCallback::Async { callback, ambient })
                ==> (setup.calls@[0] matches BridgeCall::RegisterFileSourceFactory(registered) && (
            registered@ matches FsCallbackKind::Async { callback: stored, runtime } && stored
                == callback && (self@.file_source_runtime matches Some(handle) ==> runtime
                == handle) && (self@.file_source_runtime is None ==> ambient == Some(runtime)))),
    {
        RendererSetup::new(MapMode::Continuous, self)
    }
}

/// What has to be asked of the native side to make a renderer that `S` marks the
/// mode of.
#[verifier::reject_recursive_types(Fut)]
pub struct RendererSetup<S, R, Fut> {
    /// The calls, in the order in which they have to be made. The last one gives
    /// the instance of the renderer.
    pub calls: Vec<BridgeCall<R, Fut>>,
    pub mode: PhantomData<S>,
}

impl<S, R, Fut> RendererSetup<S, R, Fut> {
    /// Whether the image of the renderer has pixels.
    pub open spec fn not_empty(self) -> bool {
        self.calls@.last() matches BridgeCall::NewMapRenderer(args) && args.width > 0 && args.height
            > 0
    }
}

impl<S, R: Default, Fut> RendererSetup<S, R, Fut> {
    fn new(map_mode: MapMode, opts: ImageRendererBuilder<R, Fut>) -> (setup: Self)
        requires
            opts@.runtime_resolved(),
        ensures
            opts@.gives_calls(map_mode, setup.calls@),
            setup.not_empty(),
    {
        let mut calls: Vec<BridgeCall<R, Fut>> = Vec::new();
        match opts.file_source_callback {
            None => {},
            Some(PendingCallback::Sync(callback)) => {
                calls.push(
                    BridgeCall::RegisterFileSourceFactory(
                        FileSourceRequestCallback::of_kind(FsCallbackKind::Sync(callback)),
                    ),
                );
            },
            Some(PendingCallback::Async { callback, ambient }) => {
                let runtime = match opts.file_source_runtime {
                    Some(handle) => handle,
                    None => ambient.unwrap(),
                };
                calls.push(
                    BridgeCall::RegisterFileSourceFactory(
                        FileSourceRequestCallback::of_kind(
                            FsCallbackKind::Async { callback, runtime },
                        ),
                    ),
                );
            },
        }
        let resource_options = match opts.resource_options {
            Some(options) => options,
            None => R::default(),
        };
        calls.push(
            BridgeCall::NewMapRenderer(
                MapRendererArgs {
                    map_mode,
                    width: opts.width.get(),
                    height: opts.height.get(),
                    pixel_ratio: opts.pixel_ratio,
                    resource_options,
                },
            ),
        );
        RendererSetup { calls, mode: PhantomData }
    }
}

} // verus!
