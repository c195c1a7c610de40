# gpui_component

A slider control and the plain-text document format, with their decisions
verified by Verus.

- `src/` is the verified library:
  - `scale`: linear or logarithmic scale;
  - `value`: a slider's value (single or range) and its events;
  - `drag`: when a drag is anchored, continues from its anchor, and when a
    release is announced;
  - `slider`: the element's configuration and its pointer wiring (which
    handlers and thumbs a disabled or enabled, single or range slider has,
    and which slider a drag moves);
  - `plain`: plain text parsed verbatim into one paragraph.
- `app/` is the gpui view around it: the floating-point arithmetic of the
  track (value and fraction mapping, clamping, stepping), the 1€ pointer
  filter, and the drawing of the slider.
- `tests/` exercises the library.
