# bane

Terminal handling: what a terminal description (terminfo) offers, the bytes
that move the cursor, erase, and set text attributes and colors, the table
that decodes the bytes a terminal sends into keys, and the decoder that turns
terminal input into events (keys, focus changes, bracketed pastes).

- `src/` is the library, verified with Verus. Every operation that writes to
  the terminal appends its bytes to a buffer and states, in its contract,
  exactly which bytes and which result it gives for every description.
  Parametrized capability strings are expanded by the `terminfo` crate, once
  a verified check (`template`) has accepted them as parsing item by item
  with arithmetic that a bound grown from the parameters keeps within
  `i32`; the
  control sequences that set a terminal up are formatted by `control-code`.
- `app/` opens the terminal: it loads the description, reads and changes the
  line settings with `termios`, asks the size with `ioctl`, installs the
  resize signal handler, runs the thread that reads input and hands it to the
  decoder, and writes what the library computes.
- `tests/` runs the library on concrete descriptions and inputs.
