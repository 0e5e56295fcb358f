# alluno_vdd_sys

Bindings for the Alluno Virtual Display Driver (AllunoVDD), split in two:

- `src/` is the verified library. It holds everything that can be decided
  without the operating system: the packed little-endian request payloads the
  driver expects (`requests`), the decoding of its replies (`responses`), the
  request codes and the protocol-version rule (`protocol`), the GUID field
  (`guid`), fixed and NUL-terminated text fields (`text`), display
  configuration decisions such as the layout shift that makes a display
  primary (`display_config`), the window-move plan (`window_move`), what is
  listed of the system's displays (`system`), and the command language of the
  interactive test tool (`commands`). Each function carries a contract, and the
  laws that relate several functions are proof functions next to them.
- `app/` performs the system calls on Windows (`vdd.rs`): it opens the
  driver, sends the payloads the library encodes, hands the replies back for
  decoding, and calls the display and window APIs with the values the library
  computes. `main.rs` runs the interactive test tool (`tool.rs`).
