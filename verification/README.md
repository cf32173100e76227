# yappyink

An on-screen annotation overlay: draw over whatever is on screen, switch
between drawing and letting input through, undo and redo whole gestures, and
ask the machine what it can honestly offer (`yappyink doctor`).

The library in `src/` holds the logic, verified with Verus:

- `document`, `command`, `history`, `session`: per-output documents, the
  three invertible edits, bounded undo and redo, with the laws that undo puts
  back exactly what an edit changed and redo repeats it.
- `modes`, `press`, `settings`, `tool`, `keymap`: the mode coordinator
  (desired is not effective, stale confirmations are ignored), what a press
  starts, what Escape undoes, the tool tables and the key bindings.
- `verbs`, `route`, `draw_args`, `control`, `paths`: the command line and the
  control channel's words.
- `capability`, `platform_error`, `display_server`, `doctor`: honest
  capability reporting, session detection and the report's text.
- `wayland`, `windows`, `macos`: the decisions each platform backend makes
  that do not need the platform: key tables, buffer layouts, monitor choice,
  message numbering, what is claimed and why.

`app/` is the program around it: reading the environment and the command
line, the control socket, `gsettings`, the Wayland registry probe, and the
parts made of floating-point geometry (gestures, toolbar layout, scaling).
`tests/` exercises the library from outside.
