# rhap

A terminal audio player for bit-perfect playback over ALSA and PipeWire.

- `src/` is the verified core: stream formats and device capabilities,
  USB descriptor parsing, sample conversion, the decisions of the output and
  decoder threads, retry policy for opening devices, playlist navigation and
  search, key bindings, the search field and device picker, layout of the
  screen, media-control state and the text the player shows. Verus proves
  every function there against its contract; the handles on shared atomics
  and on the buffer signal have no contract on what other threads see. The
  `lemma_*` proof functions state the properties that relate several
  operations.
- `app/` is the program around it: command line, terminal drawing, the audio
  backends, decoding with Symphonia, resampling and media controls.
- `tests/` exercises the library on concrete values.
