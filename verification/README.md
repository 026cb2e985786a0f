# nmosh

nMosh receives an NDI video source, turns MIDI input into control signals and
renders GPU effects driven by them. This crate holds the parts of it whose
behaviour can be stated and proved with Verus; `app/` holds the desktop
program around them (window, GPU, overlay widgets, MIDI and NDI connections,
the settings file).

Library modules (`src/`):

- `bindings` – MIDI bindings of the visual parameters and of the effect
  reset; MIDI learn keeps every source bound to at most one target.
- `midi` – what each MIDI message does to the controller state, the effect
  reset, and the choice of the MIDI port.
- `overlay` – open/close with the unsaved-changes prompt, MIDI learn and the
  eyedropper of the options overlay.
- `ndi` – repacking received frames, sampling a pixel, choosing the NDI
  source, the receiver's reaction to a capture, runtime library candidates.
- `mesh` – the triangle indices of the video mesh.
- `options` – the command line.
- `keys` – the keyboard shortcuts.
- `settings` – the settings store and the migration of older settings.
- `text` – string helpers (ASCII case folding, search, decimal text, trim).
