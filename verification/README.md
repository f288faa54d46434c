# roboflow

Conversion of robotics recordings (MCAP) into training datasets (KPS and
LeRobot layouts), with the coordination pieces of a distributed pipeline.

- `src/` is the library, verified with Verus: the MCAP writer and its file
  layout, the readers of MCAP summaries and message streams, the dataset and
  delivery layouts (names, READMEs, where each file goes, metadata), the
  configuration types and their selections, the URDF joint scanner, the
  backpressure rules of the streaming converter, and the TiKV circuit
  breaker and configuration. Calls into `zstd` and `mcap` stand behind small
  trusted wrappers whose contracts are stated in their doc comments.
- `app/` holds what touches the outside world: files, the environment, TOML
  and JSON (de)serialisation, async calls, and the floating-point figures.
- `tests/` exercises the library through its public API.
