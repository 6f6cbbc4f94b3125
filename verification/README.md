# kubernation

The decision logic of Kubernation — a strategy-map client that draws a
Kubernetes cluster as a world of continents, provinces and cities — written
in Verus and proved against its contracts.

- `src/` is the verified library. Each module takes plain values (the
  cluster facts as the watcher reports them, the key pressed, the row
  clicked) and returns plain values (the lines to draw with their tints,
  the next screen, the action to take). Laws that span several functions
  are public proof functions named `lemma_*`.
- `tests/` runs the library on concrete values.
- `app/` is the program around it: the command line, `config.toml`, the
  file log, the native-fault handler, the session marker, and reading and
  atomically writing the saved layout file. Watching the cluster and
  drawing the map belong to the cluster runtime crate, which this program
  is not linked against, so it ends after its start-up work.
