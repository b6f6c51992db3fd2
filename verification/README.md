# strata

The input and configuration logic of the Strata Wayland compositor, as a
library whose functions carry contracts proved by Verus.

- `src/modifier.rs`: the set of modifier flags (Shift, Control, Alt, Super,
  ISO level 3/5 shift and Hyper, left and right), its names and its reading
  from script values.
- `src/keyboard.rs`: keys, chords, the keymap's modifier state, and how a key
  event updates the compositor's own modifier flags and picks a keybinding.
- `src/ordered_map.rs`: the insertion-ordered map that holds keybindings and
  exit callbacks.
- `src/config.rs`: key repeat and keymap settings, their defaults, and how
  scripts change them.
- `src/process.rs`: reaping ended children and finding their exit callbacks.
- `src/compositor.rs`: which input events are handled, the stacking order of
  surfaces under the pointer, and scroll frames.
- `app/lib.rs`: conversions from the input stack's, the script runtime's and
  the operating system's types, and the handlers that act on the library's
  decisions.
