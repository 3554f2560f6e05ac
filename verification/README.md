# mcraw-tui

Tools for MotionCam raw video clips (`.mcraw`): reading the container
header and frame index, export settings and presets, FFmpeg argument
construction, lossless-JPEG (LJ92) compression of Bayer frames for
CinemaDNG, the preview and thumbnail caches, pipeline timing, and the
state of the interactive session (media pool, render queue, file browser).

Layout:

- `src/` — the library, written in Verus: every function carries a
  contract that the verifier checks. Notable results are the losslessness
  of the LJ92 encoder against a decoder written down from ITU-T T.81
  (predictor 1: the first sample from 2^15, each row's first sample from
  the one above, the rest from the left; `lj92_decode::lemma_lj92_lossless`),
  the dcraw colour-filter word of each Bayer pattern (`file`), the
  keyboard and mouse dispatch of the interactive session as a step
  function from state and key to new state and command (`keys`), the
  cache policies (`preview`, `thumbnail_cache`), and the preset round
  trip (`preset`, `settings`).
- `app/` — the command-line program around the library: argument parsing,
  file and process I/O, JSON (de)serialisation and floating-point
  formatting.
- `tests/` — tests of the library.
