# spawner

Backends in Docker containers: run with a network of their own, watched, found, reached through an
HTTP proxy by the host that a request names, and stopped.

- `src/` is the library. It is written in Verus, and every function states what it returns or
  changes. It does no input or output: what it wants done is an action that it hands out, and what
  came of it is a reply that it is handed. Laws that relate several functions are public proof
  functions whose names begin with `law_`.
- `app/` performs the actions: it talks to the Docker engine, serves and sends HTTP and web sockets,
  writes log files, waits, and stores accounts.
- `tests/` runs the library.

| module | what it holds |
| --- | --- |
| `docker` | backends: names, settings, events, running, stopping, ports |
| `container` | containers that are launched for a while and torn down |
| `proxy` | where a request is sent |
| `server` | loopback servers and how it is found out that they are ready |
| `acme` | accounts of certificate authorities, with keys in base64 |
| `retry` | repeating an attempt |
| `config`, `net`, `string_map`, `text` | what the others are made of |
