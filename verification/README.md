# OpenEQ

OpenEQ is a three-band stereo equalizer plugin (low shelf, mid bell, high shelf) with a native
egui editor, exported as VST3 and CLAP through `nice-plug`.

## Layout

- `src/` is the verified library, checked by Verus. It holds the equalizer's control decisions:
  - `band_updates`: which bands' filters are redesigned when a frame's settings arrive (only the
    bands that changed since the previous frame, every band after a reset);
  - `knob_gesture`: which automation steps the rotary knob issues for one frame of pointer input
    (drag with normal or fine speed, double-click reset inside its own gesture);
  - `channel_routing`: which filter chain processes each channel of an audio frame.
- `app/` is the plugin itself: the floating-point biquad design and filtering, the parameters,
  the editor widgets and the plugin-format glue. It calls the library for the decisions above.
- `tests/` exercises the library.
