# yazi-pick-ax

Native helper of yazi-pick: after a file has been picked in yazi, it brings
the application that shows a macOS file dialog back to the front and types
the chosen path into the dialog.

- `src/` is the verified library. Each procedure (`frontmost`, `center`,
  `push`) is a state machine: it is handed what the last operation
  observed, with a clock reading, and answers with its next state and the
  next operation to perform (`protocol`). `push_laws` proves what holds of
  every run of the dialog procedure: no typing when no dialog field was
  found, keystrokes through the pasteboard only for a dialog invisible to
  the accessibility API, a write only into a new text field inside a sheet,
  confirmation only after the field read back the path, the path reaching
  the application only through the field write (or the pasteboard), and
  every polling loop ending within a fixed number of answered steps once
  its deadline has passed. `roles`,
  `windows`, `text` and `cli` hold the decisions on accessibility roles,
  window-server windows, strings and the command line.
- `app/main.rs` performs the operations against the Accessibility API, the
  window server, the keyboard and the pasteboard (macOS only), and runs the
  procedures.
- `tests/` runs the procedures through scripted observations.
