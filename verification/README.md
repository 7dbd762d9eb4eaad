# vi_ime

The decision logic of a Vietnamese input-method daemon and its IBus, Fcitx5,
portal and compositor backends, written in Verus and verified.

- `src/` — the verified library. Public functions state their results in
  their contracts; the laws that relate several functions are public proof
  functions (`lemma_*`). The engine is the caller's: its trait says, by
  spec functions each engine defines, which answers it gives and what preedit
  it shows; `LoggedEngine` hands events to it and logs each with the engine's
  answer, and the drivers in `engine`, `compositor_matrix` and `integration`
  state what they feed it and what they return for the answers it gave.
  - `types`, `engine` — the composition engine's interface and the drivers that
    replay sessions and stress it.
  - `ibus`, `ibus_engine`, `ibus_wire` — key mapping, the IBus engine's state
    and the signals it emits per dispatch mode, the IBus serialisation
    structures, the bus address and the connection backoff.
  - `fcitx5` — the line protocol of the Fcitx5 addon and the preedit deltas.
  - `event_loop`, `ipc`, `daemon`, `detect`, `diagnostics`, `compat`,
    `portal`, `platform` — the daemon: dispatch plans, control requests,
    systemd notifications and heartbeat, snapshots, backend selection, process
    scanning, fullscreen and remote-desktop passthrough, sandbox detection.
  - `compositor_matrix`, `mock_compositor`, `mock_ibus`, `integration`,
    `golden`, `replay`, `unicode_torture`, `stress`, `memory` — test fixtures
    and recording backends.
  - `text` — character-level helpers.
- `tests/` — the test suite.
- `app/` — the I/O around the library: sockets, D-Bus objects, files, the
  environment, timers and threads. It is generic over the composition engine,
  which is supplied by the caller.
