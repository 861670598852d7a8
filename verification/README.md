# makima

The decisions of a coding agent and of the server that a client talks to, as a verified library.

- `src/actor`: an actor's queue, its lifecycle, and how turns are admitted, run, cancelled and
  settled.
- `src/agent`: an agent's turn: requests and retries, tool calls and their hooks, compaction, side
  questions.
- `src/command`: command files, the built-in commands, and the session as commands see it.
- `src/acp`: the server: lines and requests, sessions, options, operations, and the events that are
  shown to the client.
- `src/json.rs`, `src/text.rs`, `src/text_map.rs`, `src/types.rs`: what these share.

Each function's contract says what it returns and changes. What holds of several functions together
stands in the `laws.rs` files and in functions whose names begin with `law_`.

`app/` is the ordinary Rust around the library: streams, tasks, timers, files, and the wire format.
It asks the library what to do next and does it. `tests/` runs the library on concrete values.
