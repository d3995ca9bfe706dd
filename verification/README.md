# solana-cli-sentinel

A watchdog for a Solana validator node: it compares the node's slot with a
reference node, checks its response time, and sends an alert written by the
Mistral LLM to Telegram, at most once per cooldown.

- `src/` is the verified library: configuration from environment
  values, the probe analysis, the status report, the alert and cooldown
  decisions, the retry schedule, and the JSON and text exchanged with the
  Mistral and Telegram APIs. Every public function carries a contract over
  spec functions; the laws are public proof functions.
- `app/` is the program around it: environment and `.env` reading, RPC and
  HTTP calls, the Tokio loop with Ctrl+C, logging and the command line.
- `tests/` holds the tests of the library.
