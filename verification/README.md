# mcdk

Helpers for a NetEase Minecraft (Bedrock) development setup, written in Verus.

- `src/` is the verified library: version numbers (`version`), random pack
  identifiers (`utils`), pack manifests and pack configuration (`addon`), the
  configuration model and its defaults (`config`), launcher directories
  (`env`), and world settings for `level.dat` (`level`), with the text helpers
  they share (`text`).
- `app/` is the program around it: reading the environment and files, the
  serde forms of the library's types (configuration, pack information, world
  settings) with loading, saving and manifest parsing through them, and the
  file-system operations.
- `tests/` runs the library on concrete values.
