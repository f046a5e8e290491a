# OpenDeck Power Profile

An OpenDeck plugin with one dial action that steps through
power-profiles-daemon's three profiles (Power Saver, Balanced, Performance)
and shows the active one on the dial's touch strip.

- `src/` is the verified library: profile stepping (`decision`), the SVG
  icons (`icons`), the touch-strip payload (`format`), the action's state and
  its answers to dial events (`action`, with the instance registry in
  `registry`), the connection lifecycle (`watch`), and properties that span
  them (`laws`).
- `app/` is the plugin binary: the D-Bus client, the OpenDeck `Action`
  impl, and the loop that performs the lifecycle's commands.
