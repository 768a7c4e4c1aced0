# oasis

The Oasis plugin suite (compressor, de-esser, delay, drive, EQ, limiter,
pump, transient shaper, pitch shifter and synth), split into a verified
library and the plugin code around it.

`src/` is the library, verified with Verus:

- `presets`: factory preset banks, stepping through them (forward, back,
  wrapping) and the preset browser of the editors (`browse`), with laws on
  stepping and loading.
- `<plugin>::presets`: each plugin's factory preset table and its
  `current_preset_name`, `preset_count`, `next_preset`, `prev_preset`. The
  current index is passed in by the caller.
- `eq::ui`, `limit::ui`: which parameter a preset entry addresses and the
  parameter changes that loading a preset makes; `eq::params`: EQ filter
  shapes and each band's default.
- `dsp::delay`: the delay line's ring buffer; a tap `n` writes back gives the
  sample written `n` writes ago.
- `shift::grain`: the pitch shifter's write position and grain counters.
- `synth::voice`: the synth voice's note and envelope-stage state.
- `formatting`: cutting the unit from a typed parameter value, leaving the
  number text, with laws that displayed values read back.
- `text`: characters of strings and their comparison.

`app/` holds what the library cannot: floating-point signal processing,
parameter declarations and host integration through nih_plug, the editors
drawn with nih_plug_vizia, the shared atomic preset index, and the denormal
guard that sets CPU control registers.
