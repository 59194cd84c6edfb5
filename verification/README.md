# cc_wired

Relays file changes from watching clients to connected computers.

- `src/` is the verified library (Verus): the message type, the routing
  registry and its laws, the producer's frame dispatch, the per-frame
  decisions of websocket connections, the client's reporting of file-system
  changes, the relay request (address and client id), and the settings.
- `app/` is the `cc-wired` program around it: the actix-web server, the
  websocket client, the file-system watcher and configuration loading. It
  performs the I/O the library decides on.
- `tests/` runs the library on concrete values.
