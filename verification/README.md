# lingchat

The rules behind a desktop companion application — its media library,
voice engines, Live2D model import, package market, script packages,
scenes and settings — written as a Verus library whose behaviour is stated
in `requires`/`ensures` contracts and proved.

- `src/` is the verified library, one module per area (`scene`, `media`,
  `live2d_import`, `model3`, `market`, `sherpa_models`, `popups`, ...).
  JSON documents reach it as `json::Json` values: `app/` parses the text
  with `serde_json`, and the library reads what it needs from the value
  (tool-call arguments, model configurations, repository listings, a
  model's file references). Calls into
  outside crates (`uuid`, `chrono`, `infer`) and into `std` where `vstd`
  gives no specification sit behind small trusted wrappers, each with a doc
  comment saying what its contract claims.
- `tests/` runs the library on concrete values.
- `app/` is ordinary Rust around the library: file-system scans, the
  streamed WAV writer, reading JSON files, the boot loop that starts the
  voice service, floating-point emotion vectors, and serde forms of the
  library's records.
