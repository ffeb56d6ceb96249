# gstreamer value types, verified

The value types of the GStreamer bindings — formatted quantities (`ClockTime`,
`Bytes`, `Buffers`, `Default`, `Percent`, `Other`, `Undefined`), their signed
forms, generic formatted values, flags, event and message types, states and
return codes — with their arithmetic, C conversions, parsing and text
formatting, written in Verus and proved against their contracts.

- `src/` is the verified library. Each public function states what it
  returns; laws that relate several functions are public proof functions
  (`lemma_*`) beside them.
- `tests/` runs the library on concrete values.
- `app/` holds what cannot be verified: floating-point conversions,
  `Duration`, `Display` with formatter flags for `ClockTime` (read from the
  formatter into the library's `FormatOptions`) and for `Percent`, and serde
  support through copies of the library's types. Other values display
  through the library's `to_string` methods.

`muldiv` computes the 128-bit `mul_div_*` operations; the library calls it
through small wrappers in `src/muldiv_ops.rs` whose contracts state the
rounding of each operation.
