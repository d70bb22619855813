# psa_can

Codecs for the CAN frames of the PSA AEE2010 infotainment bus, verified with
Verus.

- `src/bitfield.rs`: the bit-field model of a frame byte and of a 16-bit
  word, the executable readers and writers that follow it, and the laws that
  relate them (a field reads back as written and keeps its neighbours).
- `src/endian.rs`: big-endian words inside a frame, read and written through
  the `byteorder` crate.
- `src/bytes.rs`: characters carried one per byte.
- `src/calendar.rs`: calendar dates and times of day, checked with the
  `time` crate.
- `src/config.rs`, `src/vehicle.rs`: the enumerations that the frames carry,
  each with its raw value.
- `src/text.rs`: decimal and boolean texts, built from string literals.
- `src/aee2010/infodiv/xNNN.rs`: one module per frame, with a `Frame` that
  wraps a byte buffer and its field offsets in `xNNN/field.rs`.  In 22 of
  the 25 modules a `Repr` is parsed from a frame, emitted into one and
  rendered as text; those modules prove that emitting then parsing gives the
  representation back, and that emitting what was parsed leaves the bytes
  unchanged, on the inputs where the frame allows it.  The representations
  of x0f6, x1a8 and x2a1 hold floating-point quantities and stand in `app/`.
- `app/`: `Display` for frames and representations, writing the text that
  the library computes, and the representations whose fields are
  floating-point quantities.
- `tests/`: one file per frame, and `laws.rs` for the laws on concrete
  values.
