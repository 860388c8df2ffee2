# ep_start

A Start menu companion for Windows: a notification area icon, a settings
window, global Win / Win+Shift shortcuts and a bridge DLL loaded into Explorer
that routes Start button clicks to the Start menu window.

- `src/` is the verified library (Verus): user preferences and their
  normalisation, the settings file location, keyboard shortcut decisions, icon
  and PE image parsing, the settings window layout and pointer handling, the
  choice list, the Explorer bridge's click and visibility state, and the
  start-up sequence. Every public function carries a contract, except the
  one that reads the pointer clock (`pointer_clock_ms`), whose result is a
  clock reading.
- `tests/` exercises the library on concrete values.
- `app/` is the Win32 program around it: windows, hooks, registry, files,
  GDI drawing and the memory patches of the bridge.
