# voice_to_robot

A WAV "robot voice" converter: ring modulation of a recording with a sine,
square, saw or triangle carrier, with a dry/wet mix.

- `src/` — the verified library:
  - `dsp`: the carrier waveforms, their names and how a name is read back;
  - `wav`: which sample encodings are supported, and the "Int 16-bit" style label;
  - `cli`: the checks a conversion request passes, in order, and the error of the first that fails;
  - `frames`: a cursor over interleaved samples that gives each sample its frame and channel;
  - `playback`: frame and channel addressing of the looping preview buffer.
- `app/` — the command line, the GUI, audio output, WAV I/O and the
  floating-point signal processing.
- `tests/` — tests of the library.
