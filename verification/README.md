# neolink

The decision logic of a camera bridge, verified with Verus.

- `src/` is the library. It decides how the connection to a camera is kept
  (`camthread`), how its clock is set (`clock`), how a video stream is started,
  fed and stopped (`camera`, `stream`, `stream_task`, `bc`) and what the
  healthcheck endpoint answers (`healthcheck`). Each decision is a step from a
  state and an event to the next state and an action, with an exact contract;
  the laws that span steps are the public proof functions `law_*`.
- `app/` drives those steps: it talks to cameras, sleeps, spawns tasks and
  serves HTTP.
- `tests/` runs the library on concrete values.

The only outside crate that the library calls is `time`, in four wrappers in
`src/clock.rs`; their contracts are stated there and believed.
