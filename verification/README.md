# ntscrs-android

The logic of an Android bridge to the ntsc-rs video effect: pixel conversion,
setting descriptors, render parameters, the render job and the preview player.

- `src/` is the library, verified with Verus: each function states what it returns
  or changes, and the `law_` functions state what holds across functions. A few
  statements are trusted rather than proved: those on `serde_json` in
  `src/json.rs`, and those on `String::push` and `String::from_utf8_lossy` in
  `src/text.rs`.
- `app/` is ordinary Rust around it: the JNI entry points, the calls into the
  FFmpeg and x264 shims, and the effect engine itself. It carries out the actions
  that the library asks for and reports how they ended.
- `tests/` runs the library on concrete values.

| module | what it holds |
| --- | --- |
| `pixels` | RGBA to planar YUV, quarter turns |
| `planes` | planes of a YUV image, copying rows into padded planes |
| `text` | JSON string escaping, decimal numbers, text out of C buffers |
| `jsondoc` | what a JSON document is |
| `descriptors` | the settings tree as JSON |
| `json`, `params` | render parameters out of JSON |
| `engine` | checks and codes around the effect |
| `packets` | byte layouts that cross the bridge |
| `plan` | stretch and sizes of a render job |
| `render` | the render job, action by action |
| `player` | the preview player, action by action |
| `status` | result codes and the last error text |
