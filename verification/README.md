# simmons

The decision logic of a dual-brain trading engine, written in Verus and
proved against its contracts.

- `src/` — the verified library:
  - `decimal` (a decimal number type over `rust_decimal`), `market`,
    `series`, `text`, `ranking`, `config`, `error`;
  - `alpha` — momentum, mean reversion, regime detection, arbitrage, the
    alpha engine that combines them, the forecaster, pattern mining and the
    research agent;
  - `brain` — the TA brain (RADAR, PULSE, GUARD), the fundamental brain
    (whales, social, news, security), the consensus that merges them, the
    learning engine, the feedback loop, trade reflection and the types and
    file paths shared with the orchestrating brain;
  - `exec` — the OKX request builders and reply readers, paper trading, the
    smart order router, the MEV shield, gas optimisation, lending and live
    execution rules, and the execution engine's routing;
  - `cli` — the dual-brain loop's analysis and ranking, the orchestrator's
    decision planning, the command line's rules and the dashboard's rows.
- `tests/` — tests of the library.
- `app/` — the program around it: command-line parsing, reading the
  configuration file, the files exchanged with the orchestrating brain, and
  the OKX REST calls.

Outside calls (decimal arithmetic and formatting, HMAC-SHA256, base64, the
clock, text case and parsing) stand behind small trusted wrappers whose
contracts are stated in their doc comments.
