# Alice Engine

A runtime for long-running agents. Every agent has a workspace, a memory and an
inbox; the engine lets each of them beat: messages are read, a language model is
asked, and the actions that it answers with are carried out.

- `src/` is the library: parsing answers, guarding the order of actions, the
  pulse of an instance, memories and their files, chats, settings, the rules of
  the HTTP interface, the protocol between engines, and the check for literals
  that leave functions. It takes and gives plain values; each function states
  what it does in its contract, and Verus proves it. Facts that relate several
  functions are the proof functions named `law_...`.
- `tests/` runs the library.
- `app/` is the program around it: the HTTP server, the database, the calls to
  models, commands, sockets and logs.

Where the library calls a function that Verus does not know, the call stands in a
small function marked `external_body` whose doc comment says what is taken on
trust: `codec`, `clock`, `text::case`, `text::chars` and `guardian::source` hold
them.

The data directory may hold `default_model.txt`, which names the model of agents
that set none, and `initial_history.txt`, which new agents remember first.
