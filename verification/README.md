# kilo_executor

A verified library for running the Kilo Code command line agent and streaming its logs.

- `src/text.rs`: white space, trimming, words and lines of text, with their laws.
- `src/json.rs`: the calls into `serde_json` (parsing, object members, printing).
- `src/command.rs`: command builders, profile overrides and command lines.
- `src/kilo.rs`: the Kilo Code configuration, its command line, how its JSON messages
  show in the log, where its files live and when it counts as installed.
- `src/logs.rs`: log messages, conversation entries and the processor that turns the
  agent's JSON output into entries.
- `src/forward.rs`: the decisions of the task that feeds a run its prompt and copies its
  output into the log.
- `src/routes.rs`: the decisions of the WebSocket loops of the execution-process routes.
- `app/`: the processes, pipes, tasks and sockets that carry those decisions out.
