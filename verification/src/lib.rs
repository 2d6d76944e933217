//! Configuration of map renderers and of the callback that serves their
//! resources.
//!
//! A renderer asks for every style, tileset, tile, glyph range, sprite and
//! image it needs. [`FileSourceRequestCallback`] holds the closure that answers
//! those requests, [`ImageRendererBuilder`] collects what a renderer is made
//! from, and [`BridgeCall`] is what is left to ask of the native side.

pub mod bridge;
pub mod builder;
pub mod fetch;
pub mod file_source;
pub mod laws;
pub mod resource;
pub mod response;
pub mod runtime;

pub use bridge::{
    register_file_source_callback, BridgeCall, Continuous, ImageRenderer, MapMode, MapRendererArgs,
    PixelRatio, Static, Tile,
};
pub use builder::{ImageRendererBuilder, PendingCallback, PixelCount, RendererSetup};
pub use file_source::{
    fs_callback_is_sync, fs_invoke_async, fs_invoke_sync, FileSourceRequestCallback, FsCallbackKind,
    RequestSink,
};
pub use resource::ResourceKind;
pub use response::{ffi_response, FsErrorReason, FsResponse, RustFsResponse};
