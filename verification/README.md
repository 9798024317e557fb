# hyperliquid_ws

A websocket client core for an exchange API, written in Verus.

- `src/` is the verified library. `ws::post_ws_manager2` holds the
  websocket manager's link state and each task's step (reader, reconnect,
  writer, pinger) with exact contracts and the laws that span them;
  `ws::post_ws_manager` frames post requests and routes incoming frames;
  `exchange::oid_or_cloid` gives the wire form of order identifiers and
  proves that reading it back gives the identifier; `text` renders
  integers in decimal and hexadecimal.
- `app/` is the runtime around it: tokio tasks, the socket, channels and
  serde glue. The websocket manager's tasks take every decision on the
  link state through `src/` (their loops run while `keeps_running`). What
  `app/` tests itself is I/O: whether a channel or socket call failed, and,
  in the post-request client, its stop flag, an atomic that `Drop` sets.
- `tests/` runs the library on concrete values.
