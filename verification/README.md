# tauri-plugin-websocket

A WebSocket bridge for Tauri applications, split in two:

- `src/` is the verified library. It holds the messages and their socket
  form, the connection settings, the preparation of a client's handshake
  request, the registries of running servers and of accepted connections
  with their subscribers, the decisions of a connection's read loop, and the
  replies of the plugin's commands. Each public function states its result
  in `requires`/`ensures`, and the laws that tie the operations together are
  proof functions (`lemma_*`).
- `app/` is the plugin itself: Tauri commands, locks, sockets and tasks. It
  converts between `tungstenite`'s and Tauri's types and the library's
  plain values, and asks the library for every decision.

`tests/` runs the library on concrete values.
