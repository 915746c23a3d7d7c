# intro_rs

The decision logic of a 4k intro that flies a camera over a generated island,
written in Verus and proved against its contracts.

- `src/timeline.rs`: the 38-shot camera script, cuts, the per-frame countdown,
  and user-requested random cameras; laws on shot lengths and the script's
  total length.
- `src/controls.rs`: the mouse-driven free camera (left drag moves, right drag
  turns, Ctrl raises).
- `src/layout.rs`: indices into the terrain buffer, the smoothing taps and the
  shader's uniform vector slots.
- `src/song.rs`: the size of the rendered song.
- `app/lib.rs`: the floating-point scene, the random generator and the
  renderer, which apply the library's decisions.
