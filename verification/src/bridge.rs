//! What is asked of the native side, and what the native side makes of it.

use std::marker::PhantomData;

use vstd::prelude::*;

use crate::file_source::FileSourceRequestCallback;

verus! {

/// How a map is rendered.
#[derive(Debug, Clone, Copy, PartialEq, Eq, Structural)]
pub enum MapMode {
    /// Frames are rendered as the map changes.
    Continuous,
    /// One still image is rendered at a time.
    Static,
    /// One tile is rendered at a time.
    Tile,
}

/// Marks a renderer of still images.
#[derive(Debug)]
pub struct Static;

/// Marks a renderer of tiles.
#[derive(Debug)]
pub struct Tile;

/// Marks a renderer that renders continuously.
#[derive(Debug)]
pub struct Continuous;

/// Ratio of physical to logical pixels, held as the bit pattern of a
/// single-precision number.
#[derive(Debug, Clone, Copy, PartialEq, Eq, Structural)]
pub struct PixelRatio {
    /// The bits of the number, sign first.
    pub bits: u32,
}

/// The bit pattern of the number one: no sign, the biased exponent 127, no
/// fraction.
pub const ONE_BITS: u32 = 0x3f80_0000;

/// Arguments from which the native side makes a map renderer.
pub struct MapRendererArgs<R> {
    pub map_mode: MapMode,
    /// Image width in pixels.
    pub width: u32,
    /// Image height in pixels.
    pub height: u32,
    pub pixel_ratio: PixelRatio,
    pub resource_options: R,
}

/// One call to the native side.
#[verifier::reject_recursive_types(Fut)]
pub enum BridgeCall<R, Fut> {
    /// Make the callback the process-global source of resources.
    RegisterFileSourceFactory(FileSourceRequestCallback<Fut>),
    /// Make a map renderer.
    NewMapRenderer(MapRendererArgs<R>),
}

/// Register a callback as the process-global source of resources without going
/// through a builder. Useful ahead of a renderer that is built lazily on another
/// thread.
pub fn register_file_source_callback<R, Fut>(callback: FileSourceRequestCallback<Fut>) -> (call:
    BridgeCall<R, Fut>)
    ensures
        call == BridgeCall::<R, Fut>::RegisterFileSourceFactory(callback),
{
    BridgeCall::RegisterFileSourceFactory(callback)
}

/// A renderer over the native instance `instance`. `S` marks its mode.
pub struct ImageRenderer<S, M> {
    pub instance: M,
    /// Whether a style has been set.
    pub style_specified: bool,
    pub mode: PhantomData<S>,
}

impl<S, M> ImageRenderer<S, M> {
    /// The renderer over a native instance that was just made. It has no style
    /// yet.
    pub fn from_instance(instance: M) -> (renderer: Self)
        ensures
            renderer.instance == instance,
            !renderer.style_specified,
    {
        Self { instance, style_specified: false, mode: PhantomData }
    }
}

/// A map renderer of the native side: what it was made from, and the callback
/// that it took as the source of its resources when it was made.
#[verifier::reject_recursive_types(Fut)]
pub struct NativeRenderer<R, Fut> {
    pub args: MapRendererArgs<R>,
    pub file_source: Option<FileSourceRequestCallback<Fut>>,
}

/// The native side, as far as resource callbacks go. There is one per process.
#[verifier::reject_recursive_types(Fut)]
pub struct NativeState<R, Fut> {
    /// The callback that is registered.
    pub factory: Option<FileSourceRequestCallback<Fut>>,
    /// The renderers that were made, in order.
    pub renderers: Seq<NativeRenderer<R, Fut>>,
}

impl<R, Fut> NativeState<R, Fut> {
    /// The state after one call. A registration replaces the one before it. A
    /// new renderer takes the callback that is registered at that moment, and
    /// keeps it.
    pub open spec fn after_call(self, call: BridgeCall<R, Fut>) -> Self {
        match call {
            BridgeCall::RegisterFileSourceFactory(callback) => NativeState {
                factory: Some(callback),
                renderers: self.renderers,
            },
            BridgeCall::NewMapRenderer(args) => NativeState {
                factory: self.factory,
                renderers: self.renderers.push(
                    NativeRenderer { args, file_source: self.factory },
                ),
            },
        }
    }

    /// The state after a sequence of calls.
    pub open spec fn after_calls(self, calls: Seq<BridgeCall<R, Fut>>) -> Self
        decreases calls.len(),
    {
        if calls.len() == 0 {
            self
        } else {
            self.after_calls(calls.drop_last()).after_call(calls.last())
        }
    }
}

/// Renderers that exist keep what they were made from, and the callback that
/// they took, whatever is called afterwards.
pub proof fn lemma_renderers_keep_their_callback<R, Fut>(
    state: NativeState<R, Fut>,
    calls: Seq<BridgeCall<R, Fut>>,
)
    ensures
        state.renderers.is_prefix_of(state.after_calls(calls).renderers),
    decreases calls.len(),
{
    if calls.len() > 0 {
        lemma_renderers_keep_their_callback(state, calls.drop_last());
        let before = state.after_calls(calls.drop_last());
        assert(before.renderers.is_prefix_of(state.after_calls(calls).renderers));
    }
}

/// The callback that is registered is the one of the last registration, or the
/// one from before where there was none.
pub proof fn lemma_last_registration_wins<R, Fut>(
    state: NativeState<R, Fut>,
    calls: Seq<BridgeCall<R, Fut>>,
    callback: FileSourceRequestCallback<Fut>,
)
    requires
        forall|i: int|
            0 <= i < calls.len() ==> !(#[trigger] calls[i] is RegisterFileSourceFactory),
    ensures
        state.after_calls(calls).factory == state.factory,
        state.after_call(BridgeCall::RegisterFileSourceFactory(callback)).after_calls(
            calls,
        ).factory == Some(callback),
    decreases calls.len(),
{
    if calls.len() > 0 {
        lemma_last_registration_wins(state, calls.drop_last(), callback);
        assert(!(calls[calls.len() - 1] is RegisterFileSourceFactory));
    }
}

} // verus!
