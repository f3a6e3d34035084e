# q_screens

Screen management for bevy. Each registered screen moves through a lifecycle
(`Unloaded`, `LoadQueued`, `Loading`, `Ready`, `Unloading`, `Cleanup`); switching
to a screen queues it (where it is `Unloaded`) and unloads the others, so that
afterwards no other screen is queued, loading or ready; each frame runs the scoped
schedules that fit each screen's state and announces state changes once.

- `src/` is the verified library: the lifecycle state machine (`info.rs`), the
  screen stores and lookups (`data.rs`, `params.rs`), the frame, switch and
  start-up decisions (`systems.rs`), registration and cleanup (`scope.rs`), and
  the laws that tie them together (`laws.rs`). `outside.rs` holds the trusted
  declarations of bevy's and std's types and functions that the library uses.
- `app/` is the bevy plugin: resources, events, schedule labels, system
  parameters and systems that run the library's decisions in an `App`.
- `tests/` drives the library frame by frame through the lifecycle scenarios,
  and checks each operation on concrete values.
