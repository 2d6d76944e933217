//! What holds of builders, callbacks and renderers taken together.

use std::future::Future;

use tokio::runtime::Handle;
use vstd::future::FutureAdditionalSpecFns;
use vstd::prelude::*;

use crate::bridge::{
    BridgeCall, MapMode, MapRendererArgs, NativeRenderer, NativeState, PixelRatio,
};
use crate::builder::{BuilderView, PendingCallback};
use crate::file_source::{
    answers_inline, callback_kind_name, AsyncCallback, FileSourceRequestCallback, FsCallbackKind, RequestSink,
    SyncCallback,
};
use crate::resource::{kind_of_code, ResourceKind};
use crate::response::{
    lemma_body_arrives_unchanged, lemma_error_arrives_unchanged,
    lemma_miss_arrives_as_the_flag_alone, lemma_wire_form_tells_answers_apart, wire_form, FsErrorReason,
    FsResponse, RustFsResponse, RustFsResponseView, NO_ERROR,
};

verus! {

/// Setting a size sets the width to the given width and the height to the given
/// height, and leaves the rest as it was.
pub proof fn lemma_size_is_what_was_set<R, Fut>(
    builder: BuilderView<R, Fut>,
    width: u32,
    height: u32,
)
    ensures
        builder.with_size(width, height).width == width,
        builder.with_size(width, height).height == height,
        builder.with_size(width, height).pixel_ratio == builder.pixel_ratio,
        builder.with_size(width, height).resource_options == builder.resource_options,
        builder.with_size(width, height).file_source_callback == builder.file_source_callback,
        builder.with_size(width, height).file_source_runtime == builder.file_source_runtime,
{
}

/// Setting a pixel ratio sets exactly that ratio, and leaves the rest as it was.
pub proof fn lemma_pixel_ratio_is_what_was_set<R, Fut>(
    builder: BuilderView<R, Fut>,
    ratio: PixelRatio,
)
    ensures
        builder.with_pixel_ratio(ratio).pixel_ratio == ratio,
        builder.with_pixel_ratio(ratio).pixel_ratio.bits == ratio.bits,
        builder.with_pixel_ratio(ratio).width == builder.width,
        builder.with_pixel_ratio(ratio).height == builder.height,
        builder.with_pixel_ratio(ratio).resource_options == builder.resource_options,
        builder.with_pixel_ratio(ratio).file_source_callback == builder.file_source_callback,
        builder.with_pixel_ratio(ratio).file_source_runtime == builder.file_source_runtime,
{
}

/// Setting resource options sets exactly those, and leaves the rest as it was.
pub proof fn lemma_resource_options_are_what_was_set<R, Fut>(
    builder: BuilderView<R, Fut>,
    options: R,
)
    ensures
        builder.with_resource_options(options).resource_options == Some(options),
        builder.with_resource_options(options).width == builder.width,
        builder.with_resource_options(options).height == builder.height,
        builder.with_resource_options(options).pixel_ratio == builder.pixel_ratio,
        builder.with_resource_options(options).file_source_callback
            == builder.file_source_callback,
        builder.with_resource_options(options).file_source_runtime == builder.file_source_runtime,
{
}

/// Setting a callback sets exactly that one, and leaves the rest as it was.
pub proof fn lemma_callback_is_what_was_set<R, Fut>(
    builder: BuilderView<R, Fut>,
    callback: PendingCallback<Fut>,
)
    ensures
        builder.with_callback(callback).file_source_callback == Some(callback),
        builder.with_callback(callback).width == builder.width,
        builder.with_callback(callback).height == builder.height,
        builder.with_callback(callback).pixel_ratio == builder.pixel_ratio,
        builder.with_callback(callback).resource_options == builder.resource_options,
        builder.with_callback(callback).file_source_runtime == builder.file_source_runtime,
{
}

/// Setting a runtime sets exactly that one, and leaves the rest as it was.
pub proof fn lemma_runtime_is_what_was_set<R, Fut>(builder: BuilderView<R, Fut>, handle: Handle)
    ensures
        builder.with_runtime(handle).file_source_runtime == Some(handle),
        builder.with_runtime(handle).width == builder.width,
        builder.with_runtime(handle).height == builder.height,
        builder.with_runtime(handle).pixel_ratio == builder.pixel_ratio,
        builder.with_runtime(handle).resource_options == builder.resource_options,
        builder.with_runtime(handle).file_source_callback == builder.file_source_callback,
{
}

/// An image whose size and pixel ratio were not set has 512 by 512 pixels and the
/// ratio one; nothing else is set.
pub proof fn lemma_defaults<R, Fut>()
    ensures
        BuilderView::<R, Fut>::defaults().width == 512,
        BuilderView::<R, Fut>::defaults().height == 512,
        BuilderView::<R, Fut>::defaults().pixel_ratio.bits == 0x3f80_0000,
        BuilderView::<R, Fut>::defaults().resource_options is None,
        BuilderView::<R, Fut>::defaults().file_source_callback is None,
        BuilderView::<R, Fut>::defaults().file_source_runtime is None,
{
}

/// The renderer that building makes has the mode that was asked for and, field by
/// field, what the builder holds, whatever callback and runtime that is with.
/// Resource options that were set are taken as they are; others are the default
/// ones.
pub proof fn lemma_renderer_is_made_from_what_was_set<R: Default, Fut>(
    builder: BuilderView<R, Fut>,
    map_mode: MapMode,
    calls: Seq<BridgeCall<R, Fut>>,
)
    requires
        builder.gives_calls(map_mode, calls),
    ensures
        calls.last() is NewMapRenderer,
        calls.last()->NewMapRenderer_0.map_mode == map_mode,
        calls.last()->NewMapRenderer_0.width == builder.width,
        calls.last()->NewMapRenderer_0.height == builder.height,
        calls.last()->NewMapRenderer_0.pixel_ratio == builder.pixel_ratio,
        builder.resource_options matches Some(options)
            ==> calls.last()->NewMapRenderer_0.resource_options == options,
        builder.resource_options is None ==> call_ensures(
            R::default,
            (),
            calls.last()->NewMapRenderer_0.resource_options,
        ),
{
}

/// What is set on a builder last is what the renderer is made from: the size, the
/// pixel ratio and the resource options, each for itself and all together.
pub proof fn lemma_set_options_reach_the_renderer<R: Default, Fut>(
    builder: BuilderView<R, Fut>,
    width: u32,
    height: u32,
    ratio: PixelRatio,
    options: R,
    map_mode: MapMode,
    calls: Seq<BridgeCall<R, Fut>>,
)
    ensures
        builder.with_size(width, height).gives_calls(map_mode, calls)
            ==> calls.last()->NewMapRenderer_0.width == width
            && calls.last()->NewMapRenderer_0.height == height,
        builder.with_pixel_ratio(ratio).gives_calls(map_mode, calls)
            ==> calls.last()->NewMapRenderer_0.pixel_ratio == ratio,
        builder.with_resource_options(options).gives_calls(map_mode, calls)
            ==> calls.last()->NewMapRenderer_0.resource_options == options,
        builder.with_size(width, height).with_pixel_ratio(ratio).with_resource_options(
            options,
        ).gives_calls(map_mode, calls) ==> {
            &&& calls.last()->NewMapRenderer_0.width == width
            &&& calls.last()->NewMapRenderer_0.height == height
            &&& calls.last()->NewMapRenderer_0.pixel_ratio == ratio
            &&& calls.last()->NewMapRenderer_0.resource_options == options
        },
{
}

/// What building registers is the callback that was set, and nothing where none
/// was: a sync one as it is, an async one with the runtime that was set, or else
/// with that of its context.
pub proof fn lemma_registered_callback_is_what_was_set<R: Default, Fut>(
    builder: BuilderView<R, Fut>,
    map_mode: MapMode,
    calls: Seq<BridgeCall<R, Fut>>,
)
    requires
        builder.runtime_resolved(),
        builder.gives_calls(map_mode, calls),
    ensures
        builder.file_source_callback is None ==> calls.len() == 1,
        builder.file_source_callback is Some ==> calls.len() == 2
            && calls[0] is RegisterFileSourceFactory,
        builder.file_source_callback matches Some(PendingCallback::Sync(callback)) ==> (
        calls[0]->RegisterFileSourceFactory_0@ matches FsCallbackKind::Sync(stored) && stored
            == callback),
        builder.file_source_callback matches Some(PendingCallback::Async { callback, ambient }) ==> (
        calls[0]->RegisterFileSourceFactory_0@ matches FsCallbackKind::Async {
            callback: stored,
            runtime,
        } && stored == callback && (builder.file_source_runtime matches Some(handle) ==> runtime
            == handle) && (builder.file_source_runtime is None ==> ambient == Some(runtime))),
{
}

/// Debug output names the kind of a callback, and nothing else.
pub proof fn lemma_callback_kind_names<Fut>(kind: FsCallbackKind<Fut>)
    ensures
        kind is Sync ==> callback_kind_name(kind) == "FsCallbackKind::Sync"@,
        kind is Async ==> callback_kind_name(kind) == "FsCallbackKind::Async"@,
{
}

/// The order in which different options are set does not matter.
pub proof fn lemma_setters_commute<R, Fut>(
    builder: BuilderView<R, Fut>,
    width: u32,
    height: u32,
    ratio: PixelRatio,
    options: R,
    callback: PendingCallback<Fut>,
    handle: Handle,
)
    ensures
        builder.with_size(width, height).with_pixel_ratio(ratio) == builder.with_pixel_ratio(
            ratio,
        ).with_size(width, height),
        builder.with_size(width, height).with_resource_options(options)
            == builder.with_resource_options(options).with_size(width, height),
        builder.with_size(width, height).with_callback(callback) == builder.with_callback(
            callback,
        ).with_size(width, height),
        builder.with_size(width, height).with_runtime(handle) == builder.with_runtime(
            handle,
        ).with_size(width, height),
        builder.with_pixel_ratio(ratio).with_resource_options(options)
            == builder.with_resource_options(options).with_pixel_ratio(ratio),
        builder.with_pixel_ratio(ratio).with_callback(callback) == builder.with_callback(
            callback,
        ).with_pixel_ratio(ratio),
        builder.with_pixel_ratio(ratio).with_runtime(handle) == builder.with_runtime(
            handle,
        ).with_pixel_ratio(ratio),
        builder.with_resource_options(options).with_callback(callback) == builder.with_callback(
            callback,
        ).with_resource_options(options),
        builder.with_resource_options(options).with_runtime(handle) == builder.with_runtime(
            handle,
        ).with_resource_options(options),
        builder.with_callback(callback).with_runtime(handle) == builder.with_runtime(
            handle,
        ).with_callback(callback),
{
}

/// Of several values for the same option, the last one counts, and the others
/// leave no trace.
pub proof fn lemma_last_value_wins<R, Fut>(
    builder: BuilderView<R, Fut>,
    sizes: ((u32, u32), (u32, u32)),
    ratios: (PixelRatio, PixelRatio),
    options: (R, R),
    handles: (Handle, Handle),
)
    ensures
        builder.with_size(sizes.0.0, sizes.0.1).with_size(sizes.1.0, sizes.1.1)
            == builder.with_size(sizes.1.0, sizes.1.1),
        builder.with_pixel_ratio(ratios.0).with_pixel_ratio(ratios.1) == builder.with_pixel_ratio(
            ratios.1,
        ),
        builder.with_resource_options(options.0).with_resource_options(options.1)
            == builder.with_resource_options(options.1),
        builder.with_runtime(handles.0).with_runtime(handles.1) == builder.with_runtime(handles.1),
{
}

/// Setting a callback replaces the one that was set before, be it of the same
/// kind or of the other: only the last one is registered.
pub proof fn lemma_callbacks_replace_each_other<R, Fut>(
    builder: BuilderView<R, Fut>,
    first: PendingCallback<Fut>,
    second: PendingCallback<Fut>,
)
    ensures
        builder.with_callback(first).with_callback(second) == builder.with_callback(second),
        builder.with_callback(first).with_callback(second).registered() is Some,
        builder.with_callback(first).with_callback(second).registered()->0 is Sync
            <==> second is Sync,
{
}

/// An async callback is spawned on the runtime that was set, whether it was set
/// before or after the callback, and whatever the context the callback was set
/// in.
pub proof fn lemma_set_runtime_takes_priority<R, Fut>(
    builder: BuilderView<R, Fut>,
    callback: AsyncCallback<Fut>,
    ambient: Option<Handle>,
    other: Option<Handle>,
    handle: Handle,
)
    ensures
        builder.with_runtime(handle).with_callback(
            PendingCallback::Async { callback, ambient },
        ).registered() == Some(FsCallbackKind::Async { callback, runtime: handle }),
        builder.with_callback(PendingCallback::Async { callback, ambient: other }).with_runtime(
            handle,
        ).registered() == Some(FsCallbackKind::Async { callback, runtime: handle }),
{
}

/// Where no runtime was set, an async callback is spawned on the one in whose
/// context it was set.
pub proof fn lemma_ambient_runtime_is_the_fallback<R, Fut>(
    builder: BuilderView<R, Fut>,
    callback: AsyncCallback<Fut>,
    ambient: Handle,
)
    requires
        builder.file_source_runtime is None,
    ensures
        builder.with_callback(
            PendingCallback::Async { callback, ambient: Some(ambient) },
        ).runtime_resolved(),
        builder.with_callback(
            PendingCallback::Async { callback, ambient: Some(ambient) },
        ).registered() == Some(FsCallbackKind::Async { callback, runtime: ambient }),
{
}

/// A renderer cannot be built exactly where an async callback was set, outside
/// the context of any runtime, and no runtime was set.
pub proof fn lemma_when_no_renderer_can_be_built<R, Fut>(builder: BuilderView<R, Fut>)
    ensures
        !builder.runtime_resolved() <==> builder.file_source_runtime is None && (
        builder.file_source_callback matches Some(PendingCallback::Async { ambient, .. })
            && ambient is None),
{
}

/// A builder on which nothing but size, pixel ratio and resource options was set
/// can be built, and registers nothing.
pub proof fn lemma_plain_builder_registers_nothing<R, Fut>(
    width: u32,
    height: u32,
    ratio: PixelRatio,
    options: R,
)
    ensures
        BuilderView::<R, Fut>::defaults().runtime_resolved(),
        BuilderView::<R, Fut>::defaults().registered() is None,
        BuilderView::<R, Fut>::defaults().with_size(width, height).with_pixel_ratio(
            ratio,
        ).with_resource_options(options).runtime_resolved(),
        BuilderView::<R, Fut>::defaults().with_size(width, height).with_pixel_ratio(
            ratio,
        ).with_resource_options(options).registered() is None,
{
}

/// Building makes one map renderer, as its last step. It registers at most one
/// callback, exactly where one was set, and does so before.
pub proof fn lemma_registration_comes_before_the_renderer<R: Default, Fut>(
    builder: BuilderView<R, Fut>,
    map_mode: MapMode,
    calls: Seq<BridgeCall<R, Fut>>,
)
    requires
        builder.gives_calls(map_mode, calls),
    ensures
        calls.len() > 0,
        forall|i: int|
            0 <= i < calls.len() ==> (#[trigger] calls[i] is NewMapRenderer <==> i == calls.len()
                - 1),
        forall|i: int|
            0 <= i < calls.len() ==> (#[trigger] calls[i] is RegisterFileSourceFactory ==> i == 0),
        calls[0] is RegisterFileSourceFactory <==> builder.file_source_callback is Some,
{
}

/// The mode is all in which the three kinds of renderers differ.
pub proof fn lemma_modes_differ_in_the_mode_alone<R: Default, Fut>(
    builder: BuilderView<R, Fut>,
    map_mode: MapMode,
    other: MapMode,
    calls: Seq<BridgeCall<R, Fut>>,
)
    requires
        builder.gives_calls(map_mode, calls),
    ensures
        calls.last() is NewMapRenderer,
        builder.gives_calls(
            other,
            calls.update(
                calls.len() - 1,
                BridgeCall::NewMapRenderer(
                    MapRendererArgs {
                        map_mode: other,
                        ..calls.last()->NewMapRenderer_0
                    },
                ),
            ),
        ),
{
}

/// On the native side, building adds one renderer to those that exist. It is
/// made from what the builder holds. Its source of resources is the callback of
/// the builder, which stays registered; where the builder has none, it is the
/// callback that was registered before.
pub proof fn lemma_building_adds_a_renderer<R: Default, Fut>(
    state: NativeState<R, Fut>,
    builder: BuilderView<R, Fut>,
    map_mode: MapMode,
    calls: Seq<BridgeCall<R, Fut>>,
)
    requires
        builder.gives_calls(map_mode, calls),
    ensures
        ({
            let after = state.after_calls(calls);
            let added = after.renderers.last();
            &&& after.renderers == state.renderers.push(added)
            &&& builder.gives_args(map_mode, added.args)
            &&& added.args == calls.last()->NewMapRenderer_0
            &&& added.file_source == after.factory
            &&& match builder.registered() {
                None => after.factory == state.factory,
                Some(kind) => after.factory matches Some(callback) && callback@ == kind,
            }
        }),
{
    reveal_with_fuel(NativeState::after_calls, 3);
    let after = state.after_calls(calls);
    if calls.len() == 2 {
        assert(calls.drop_last().len() == 1);
        assert(calls.drop_last().last() == calls[0]);
        assert(calls.drop_last().drop_last().len() == 0);
    } else {
        assert(calls.drop_last().len() == 0);
    }
    assert(after.renderers == state.renderers.push(after.renderers.last()));
}

/// A callback that was registered ahead, without a builder, serves a renderer
/// that is built later from a builder without a callback.
pub proof fn lemma_callback_registered_ahead_is_taken<R: Default, Fut>(
    state: NativeState<R, Fut>,
    callback: FileSourceRequestCallback<Fut>,
    builder: BuilderView<R, Fut>,
    map_mode: MapMode,
    calls: Seq<BridgeCall<R, Fut>>,
)
    requires
        builder.file_source_callback is None,
        builder.gives_calls(map_mode, calls),
    ensures
        state.after_call(BridgeCall::RegisterFileSourceFactory(callback)).after_calls(
            calls,
        ).renderers == state.renderers.push(
            NativeRenderer {
                args: calls.last()->NewMapRenderer_0,
                file_source: Some(callback),
            },
        ),
{
    let registered = state.after_call(BridgeCall::RegisterFileSourceFactory(callback));
    reveal_with_fuel(NativeState::after_calls, 2);
    assert(calls.drop_last().len() == 0);
    assert(registered.after_calls(calls) == registered.after_call(calls.last()));
}

/// A later build replaces the callback for renderers that are built from then
/// on: the renderer of the earlier build keeps its own.
pub proof fn lemma_later_build_leaves_earlier_renderers_alone<R: Default, Fut>(
    state: NativeState<R, Fut>,
    earlier: (BuilderView<R, Fut>, MapMode, Seq<BridgeCall<R, Fut>>),
    later: (BuilderView<R, Fut>, MapMode, Seq<BridgeCall<R, Fut>>),
)
    requires
        earlier.0.gives_calls(earlier.1, earlier.2),
        later.0.gives_calls(later.1, later.2),
    ensures
        ({
            let between = state.after_calls(earlier.2);
            let after = between.after_calls(later.2);
            let n = state.renderers.len() as int;
            &&& after.renderers.len() == n + 2
            &&& after.renderers[n] == between.renderers[n]
            &&& earlier.0.registered() matches Some(kind) ==> (
            after.renderers[n].file_source matches Some(callback) && callback@ == kind)
            &&& later.0.registered() matches Some(kind) ==> (after.renderers[n
                + 1].file_source matches Some(callback) && callback@ == kind)
            &&& later.0.registered() is None ==> after.renderers[n + 1].file_source
                == after.renderers[n].file_source
        }),
{
    lemma_building_adds_a_renderer(state, earlier.0, earlier.1, earlier.2);
    lemma_building_adds_a_renderer(
        state.after_calls(earlier.2),
        later.0,
        later.1,
        later.2,
    );
}

/// Requests to the callback that building registers reach the closure that was
/// set: inline dispatch takes the URL and the kind of the request to it, and
/// every answer is one of its own.
pub proof fn lemma_registered_sync_closure_answers<R, Fut, F>(
    builder: BuilderView<R, Fut>,
    stored: SyncCallback,
    closure: F,
    url: &str,
    kind: u8,
    response: FsResponse,
) where F: Fn(&str, ResourceKind) -> FsResponse
    requires
        stored.wraps(closure),
    ensures
        builder.with_callback(PendingCallback::Sync(stored)).registered() == Some(
            FsCallbackKind::<Fut>::Sync(stored),
        ),
        stored.accepts(url, kind_of_code(kind)) <==> call_requires(
            closure,
            (url, kind_of_code(kind)),
        ),
        stored.may_return(url, kind_of_code(kind), response) <==> call_ensures(
            closure,
            (url, kind_of_code(kind)),
            response,
        ),
{
}

/// Of any number of requests that are dispatched inline, each is answered for
/// itself: its answer is the flat form of one that the closure gives for its own
/// URL and kind, and it is an error exactly where the closure gave one. What
/// other requests were answered, errors among them, has no part in it.
pub proof fn lemma_inline_requests_are_answered_one_by_one<Fut, F>(
    kind: FsCallbackKind<Fut>,
    closure: F,
    urls: Seq<&str>,
    codes: Seq<u8>,
    wires: Seq<RustFsResponseView>,
) where F: Fn(&str, ResourceKind) -> FsResponse
    requires
        kind matches FsCallbackKind::Sync(stored) && stored.wraps(closure),
        urls.len() == codes.len(),
        urls.len() == wires.len(),
        forall|i: int|
            0 <= i < urls.len() ==> #[trigger] answers_inline(kind, urls[i], codes[i], wires[i]),
    ensures
        exists|answers: Seq<FsResponse>| #[trigger]
            answers.len() == urls.len() && forall|i: int|
                0 <= i < urls.len() ==> {
                    &&& call_ensures(closure, (urls[i], kind_of_code(codes[i])), #[trigger] answers[i])
                    &&& wires[i] == wire_form(answers[i]@)
                    &&& wires[i].error_reason != NO_ERROR <==> answers[i] is Error
                },
        forall|url: &str, code: u8| #[trigger]
            kind->Sync_0.accepts(url, kind_of_code(code)) <==> call_requires(
                closure,
                (url, kind_of_code(code)),
            ),
{
    let answers = Seq::new(
        urls.len(),
        |i: int|
            choose|response: FsResponse| #[trigger]
                kind->Sync_0.may_return(urls[i], kind_of_code(codes[i]), response) && wires[i]
                    == wire_form(response@),
    );
    assert forall|i: int| 0 <= i < urls.len() implies {
        &&& call_ensures(closure, (urls[i], kind_of_code(codes[i])), #[trigger] answers[i])
        &&& wires[i] == wire_form(answers[i]@)
        &&& wires[i].error_reason != NO_ERROR <==> answers[i] is Error
    } by {
        assert(answers_inline(kind, urls[i], codes[i], wires[i]));
        assert(kind->Sync_0.may_return(urls[i], kind_of_code(codes[i]), answers[i]));
        lemma_wire_form_tells_answers_apart(answers[i]@);
    }
    assert(answers.len() == urls.len());
}

/// What inline dispatch returns is, field by field, an answer that the closure
/// gives for the URL and for the kind that the byte of the request stands for: its
/// body byte for byte, a miss as the flag, or an error with its message and the
/// byte of its reason.
pub proof fn lemma_inline_answer_is_the_closures<Fut, F>(
    kind: FsCallbackKind<Fut>,
    closure: F,
    url: &str,
    code: u8,
    requested: ResourceKind,
    wire: RustFsResponse,
) where F: Fn(&str, ResourceKind) -> FsResponse
    requires
        kind matches FsCallbackKind::Sync(stored) && stored.wraps(closure),
        requested == (if code == 1 {
            ResourceKind::Style
        } else if code == 2 {
            ResourceKind::Source
        } else if code == 3 {
            ResourceKind::Tile
        } else if code == 4 {
            ResourceKind::Glyphs
        } else if code == 5 {
            ResourceKind::SpriteImage
        } else if code == 6 {
            ResourceKind::SpriteJSON
        } else if code == 7 {
            ResourceKind::Image
        } else {
            ResourceKind::Unknown
        }),
        answers_inline(kind, url, code, wire@),
    ensures
        exists|response: FsResponse| #[trigger]
            call_ensures(closure, (url, requested), response) && (match response {
                FsResponse::Success(bytes) => wire.data@ == bytes@ && wire.error_reason == 0
                    && wire.error_message@.len() == 0 && !wire.no_content,
                FsResponse::NoContent => wire.data@.len() == 0 && wire.error_reason == 0
                    && wire.error_message@.len() == 0 && wire.no_content,
                FsResponse::Error { reason, message } => wire.data@.len() == 0
                    && wire.error_message@ == message@ && !wire.no_content && wire.error_reason == (
                match reason {
                    FsErrorReason::NotFound => 2u8,
                    FsErrorReason::Server => 3u8,
                    FsErrorReason::Connection => 4u8,
                    FsErrorReason::RateLimit => 5u8,
                    FsErrorReason::Other => 6u8,
                }),
            }),
{
    let response = choose|response: FsResponse| #[trigger]
        kind->Sync_0.may_return(url, kind_of_code(code), response) && wire@ == wire_form(response@);
    assert(call_ensures(closure, (url, requested), response));
    match response {
        FsResponse::Success(bytes) => {
            lemma_body_arrives_unchanged(bytes, wire);
        },
        FsResponse::NoContent => {
            lemma_miss_arrives_as_the_flag_alone(wire);
        },
        FsResponse::Error { reason, message } => {
            lemma_error_arrives_unchanged(reason, message, wire);
        },
    }
}

/// Where the closure has one answer to each request, inline dispatch has too: the
/// same request is answered the same each time, whatever came in between.
pub proof fn lemma_same_request_same_answer<Fut, F>(
    kind: FsCallbackKind<Fut>,
    closure: F,
    url: &str,
    code: u8,
    first: RustFsResponseView,
    second: RustFsResponseView,
) where F: Fn(&str, ResourceKind) -> FsResponse
    requires
        kind matches FsCallbackKind::Sync(stored) && stored.wraps(closure),
        gives_one_answer(closure, url, kind_of_code(code)),
        answers_inline(kind, url, code, first),
        answers_inline(kind, url, code, second),
    ensures
        first == second,
{
}

/// Whether the closure has one answer to a request for `url` and `kind`.
pub open spec fn gives_one_answer<F>(closure: F, url: &str, kind: ResourceKind) -> bool where
    F: Fn(&str, ResourceKind) -> FsResponse,
 {
    forall|a: FsResponse, b: FsResponse| #[trigger]
        call_ensures(closure, (url, kind), a) && #[trigger] call_ensures(closure, (url, kind), b)
            ==> a@ == b@
}

/// Async dispatch of a closure whose futures come to what a sync closure answers
/// delivers what inline dispatch of the sync closure returns. Each delivery is an
/// answer that inline dispatch may return, and where the sync closure has one
/// answer to the request, it is the one that inline dispatch did return.
pub proof fn lemma_async_delivers_what_inline_returns<Fut, F, A>(
    kind: FsCallbackKind<Fut>,
    closure: F,
    stored: AsyncCallback<Fut>,
    async_closure: A,
    url: &str,
    owned_url: String,
    code: u8,
    future: Fut,
    delivered: RustFsResponseView,
    returned: RustFsResponseView,
) where
    F: Fn(&str, ResourceKind) -> FsResponse,
    A: Fn(String, ResourceKind) -> Fut,
    Fut: Future<Output = FsResponse>,

    requires
        kind matches FsCallbackKind::Sync(inline) && inline.wraps(closure),
        stored.wraps(async_closure),
        owned_url@ == url@,
        forall|f: Fut| #[trigger]
            call_ensures(async_closure, (owned_url, kind_of_code(code)), f) ==> call_ensures(
                closure,
                (url, kind_of_code(code)),
                f@,
            ),
        stored.may_return(owned_url, kind_of_code(code), future),
        delivered == wire_form(future@@),
        answers_inline(kind, url, code, returned),
    ensures
        answers_inline(kind, url, code, delivered),
        gives_one_answer(closure, url, kind_of_code(code)) ==> delivered == returned,
{
    assert(kind->Sync_0.may_return(url, kind_of_code(code), future@));
}

/// A request that is dispatched both ways: the receiver of the async dispatch gets
/// what the inline dispatch returned. The async closure's futures come to what the
/// sync closure answers, which has one answer to the request; `task_of` makes
/// tasks that deliver what their future came to; and `task`, one of these, was
/// awaited.
pub proof fn lemma_receiver_gets_what_inline_returns<Fut, F, A, S, D, T>(
    kind: FsCallbackKind<Fut>,
    closure: F,
    async_kind: FsCallbackKind<Fut>,
    async_closure: A,
    url: &str,
    owned_url: String,
    code: u8,
    future: Fut,
    sink: RequestSink<S>,
    task_of: D,
    task: T,
    returned: RustFsResponseView,
) where
    F: Fn(&str, ResourceKind) -> FsResponse,
    A: Fn(String, ResourceKind) -> Fut,
    Fut: Future<Output = FsResponse>,
    S: FnOnce(RustFsResponse),
    D: FnOnce(Fut, RequestSink<S>) -> T,
    T: Future<Output = ()>,

    requires
        kind matches FsCallbackKind::Sync(inline) && inline.wraps(closure),
        async_kind matches FsCallbackKind::Async { callback, .. } && callback.wraps(async_closure),
        owned_url@ == url@,
        gives_one_answer(closure, url, kind_of_code(code)),
        forall|f: Fut| #[trigger]
            call_ensures(async_closure, (owned_url, kind_of_code(code)), f) ==> call_ensures(
                closure,
                (url, kind_of_code(code)),
                f@,
            ),
        forall|f: Fut, s: RequestSink<S>, t: T| #[trigger]
            call_ensures(task_of, (f, s), t) && t.awaited() ==> exists|wire: RustFsResponse|
                wire@ == wire_form(f@@) && #[trigger] call_ensures(s@, (wire,), ()),
        async_kind->callback.may_return(owned_url, kind_of_code(code), future),
        call_ensures(task_of, (future, sink), task),
        task.awaited(),
        answers_inline(kind, url, code, returned),
    ensures
        exists|wire: RustFsResponse|
            wire@ == returned && #[trigger] call_ensures(sink@, (wire,), ()),
{
    lemma_async_delivers_what_inline_returns(
        kind,
        closure,
        async_kind->callback,
        async_closure,
        url,
        owned_url,
        code,
        future,
        wire_form(future@@),
        returned,
    );
}

/// As [`lemma_registered_sync_closure_answers`], for an async closure and the
/// future it gives.
pub proof fn lemma_registered_async_closure_answers<R, Fut, F>(
    builder: BuilderView<R, Fut>,
    stored: AsyncCallback<Fut>,
    ambient: Option<Handle>,
    closure: F,
    url: String,
    kind: u8,
    future: Fut,
) where F: Fn(String, ResourceKind) -> Fut
    requires
        stored.wraps(closure),
    ensures
        builder.with_callback(
            PendingCallback::Async { callback: stored, ambient },
        ).registered() matches Some(FsCallbackKind::Async { callback, .. }) && callback == stored,
        stored.accepts(url, kind_of_code(kind)) <==> call_requires(
            closure,
            (url, kind_of_code(kind)),
        ),
        stored.may_return(url, kind_of_code(kind), future) <==> call_ensures(
            closure,
            (url, kind_of_code(kind)),
            future,
        ),
{
}

} // verus!
