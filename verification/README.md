# syntherklaas

A monophonic synthesizer for the terminal, with its control logic verified in Verus.

- `src/` is the verified library: the focus grid (`focus`), piano keys of the
  A0–C8 range and their names (`piano`, `decimal`), waveform shapes and their
  names (`waveform`), the control state and its invariant (`state`), the events
  and the tone changes they ask for (`message`), the state machine (`update`),
  the keyboard bindings (`input`), the keyboard reader's shared flags
  (`keyboard`) and the audio backends (`audio`).
- `app/` is the program around it: argument parsing, the terminal user
  interface, the event loop, the oscillator and the audio output. The tone's
  frequency and volume are `f32` values and live there; the library decides how
  each event changes them.
- `tests/` runs the library on concrete values.
