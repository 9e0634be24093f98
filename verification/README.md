# termy

Remote terminals through a relay: an agent on a device connects out to the
relay, and a control end reaches the device's terminal through it.

`src/` is the verified library, in Verus:

- `protocol` — the binary frame codec and per-stream offset tracking, the
  typed control messages with their builders, and the patterns the message
  schema imposes (UUIDs, semantic versions, safe relative paths).
- `agent` — receive-path validation, the terminal stream codec, the single
  terminal slot, the device identity, the configuration rules, the
  registration request and reply, and what each relay message asks of the
  agent.
- `relay` — error mapping, per-key rate limiting, credential generation and
  digests, password hashing, access-token claims, request checks, the health
  probe, and the WebSocket gateway: the registry of connections and routes,
  the routing of every message, and the writer's lane schedule.

`app/` is the program around it: the command line, the HTTP server and the
WebSocket endpoints, the database, the agent's files, the pseudo-terminal and
the network. `tests/` exercises the library from outside.
