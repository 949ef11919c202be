# iroh_rtp

Two media elements that exchange RTP flows with remote nodes over iroh: a sink
that sends the packets of a pipeline, and a source that receives packets for
one.

- `src/` decides. It holds the connections of a node (`state`), the commands
  and requests of the elements (`command`, `global`), the greeting
  (`handshake`), the tasks of the flows and their packets (`flow`, `rtp`,
  `octets`), waiting with cancellation (`canceller`), and the elements
  themselves (`element`, `irohrtpsink`, `irohrtpsrc`). Every function carries a
  contract that Verus proves, but for the few wrappers round other crates,
  whose contracts are taken on trust and say so. `laws` states what holds of
  the connections over any run.
- `app/` acts. It runs the endpoint, the channels, the tasks and the GStreamer
  classes, tells the library what happened and does what the library decides.
- `tests/` runs the library on concrete values.
