# animus

The rules of Animus Live, a real-time puppet animation tool for live
performance, as a Verus-verified Rust library.

- `src/project/` — the on-disk project format: the schema-version gate, the
  content-addressed asset store (where every asset and model lives, and which
  files a glTF drags along), percent-decoding of model uris, the paths the
  finite-float walk reports, and the project errors.
- `src/editor/` — the editor's decisions: modes and stages, the joint-drag
  state machine, shortcuts, what a mode change settles, rig edits, layer
  order and visibility, hit-test bookkeeping, one frame of viewport gestures
  and of panel requests, the file menu, and the theme's
  colour rules.
- `src/output/` — which monitor the projector window opens on, and how a
  fullscreen request is applied.
- `src/text.rs` — decimal and hex text, and the sequence predicates the
  contracts are written in.
- `app/` — the parts that read and write files, walk values through `serde`,
  or compute in floating point, built on the library. The editor's engine
  and UI systems (rendering, windows, panels, dialogs) are not part of this
  repository: their decisions are in `src/editor/`, and what draws them is
  absent.

Each public function's `ensures` states its result over spec functions.
Where part of a result is decided by the platform's path rules or by an
outside library (the JSON parser, SHA-256, the text of an I/O error), the
contract names that part or states what holds of it on every platform, and
leaves the rest open. The properties that span functions, or a whole
gesture, are public proof functions named `law_*`.
