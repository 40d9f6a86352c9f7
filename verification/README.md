# gateway_shard

A verified shard: the part of a chat client that holds one connection to a gateway.

- `src/` is the library, verified with Verus. `gateway_event` has the events and their frame,
  `shard` has the state of a shard and what it does about each event, `text` has what the two
  need of strings, and `laws` states what holds over the whole life of a shard.
- `app/` runs a shard over a websocket. It turns JSON into events and back, and performs the
  actions that the library decides on.
- `tests/` runs the library.
