# maplibre_native

Renderer configuration and resource callbacks for a native map library, in
verified Rust.

- `src/resource.rs`, `src/response.rs`: resource kinds, answers, and the bytes
  and flat form in which they cross to the native side.
- `src/file_source.rs`: the callback that serves resources, and its sync and
  async entry points.
- `src/builder.rs`, `src/bridge.rs`: the builder, and what building asks of the
  native side, in which order.
- `src/fetch.rs`: decisions of a callback that reads from disk and over HTTP.
- `src/laws.rs`: what holds of these together.
- `src/runtime.rs`: what is taken on trust of tokio.
- `app/`: the native bindings, the async blocks and the floating-point numbers.
