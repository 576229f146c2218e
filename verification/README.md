# rsmedia

A media toolkit around FFmpeg whose logic is verified with Verus.

- `src/` — the verified library: colours, media kinds and stream flags,
  sample and pixel formats with their memory layouts, the error type,
  filter descriptions and their escaping, the filter graph builder with its
  wiring check, the bookkeeping of a running graph, codec capabilities, and
  the decisions encoders and decoders make around FFmpeg. Every public
  function states its behaviour as a Verus contract; the laws of the library
  are public proof functions.
- `tests/` — tests of the library on concrete values.
- `app/` — what needs FFmpeg itself (through rsmpeg) or floating point: the
  running filter graph, lookups of filters, codecs and container formats,
  filters with `f32` parameters, colour-space conversions, and the error
  type with `std::error::Error`.

The encoder, decoder, muxer, bitstream filters, devices and the frame
types (`MediaFrame`, `FrameData`) are not part of this crate, neither in
`src/` nor in `app/`: only the decisions they take (format negotiation,
timestamps, frame checks, flushing and draining, subtitle events) are here,
as verified functions of plain values.
