# naga_js

Shader validation and translation on top of the `naga` shader compiler:
WGSL, GLSL and SPIR-V in; WGSL, GLSL, HLSL, MSL, SPIR-V and DOT out. Callers
name languages, stages and validator settings by strings, and every failure
comes back as a diagnostic (kind, message, 1-based source labels, notes) or
as the message of a thrown error.

The library in `src/` is written in Verus and verified:

- `formats`, `validation`, `output`: the option names and their parsing,
  the validator flag tables, entry-point resolution and the backend plan,
  each with an exact contract.
- `spans`, `text`: source locations of diagnostics and the string helpers
  they need.
- `diagnostic`: the failure value and its two renderings.
- `pipeline`: parse, validate, plan, write. The outcome of a translation or
  a validation is stated exactly, over names for what naga's frontends,
  validator and backends compute from their plain inputs.
- `compiler`: the trusted calls into `naga` (and the GLSL preprocessor that
  naga's GLSL frontend uses), and those names. naga's opaque values travel
  with the plain values they were made from. These contracts are believed,
  not proved.
- `laws`: properties of the library as a whole, proved.

`app/` holds the Node-API bindings (`napi`), which Verus does not see; it
converts between the JavaScript-facing objects and the library's types.
