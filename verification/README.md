# nominal_ffi

A handle-based C bridge to the Nominal SDK, for hosts that can only call C
functions (LabVIEW among them). Every exported function returns a status
code; objects live behind integer handles; strings come back through
caller-owned buffers sized by a "bytes needed" out-parameter; the text of
the last failure is read with `nominal_last_error`.

## Layout

- `src/` is the verified library. It decides everything the bridge
  decides: which arguments are accepted and which error each refusal
  gets, the caller-buffer string protocol, the handle registries and the
  staged create, update and ingest parameters, the requests that reach the
  SDK, and the plain records the getters read. Each public function states
  its outcome exactly in its contract; `src/laws.rs` states the properties
  that span several calls (what a lookup finds after a register or a free,
  how the last error is read back, how a retry with the reported size
  succeeds).
- `app/` is the exported C surface: raw pointers in and out, the shared
  Tokio runtime, the SDK calls themselves, the conversions between SDK
  objects and the library's records, and the guard that turns a panic into
  a status code.
- `tests/` exercise the library directly.
