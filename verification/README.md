# tool_executor

Runs command line formatters and linters over stdin/stdout, with timeouts and
lazy, cached tool lookup.

* `src/` is the library, verified with Verus. It decides: which tool to look up
  and how, what to spawn with which arguments, when to poll, kill or give up,
  and what the outcome is. It performs nothing itself; a run asks for one action
  after the other and takes in what came of each.
  * `config`, `error`, `output`: tool definitions, errors, tool output
  * `probe`, `execution`, `executor`: tool lookup, one run, the executor
  * `framing`, `text`: the argument format for hosts, numerals and decoding
  * `laws`: what holds of every run
* `tests/` exercises the library.
* `app/` performs the actions: child processes and their pipes, the clock, and
  the host of a WASI guest.
