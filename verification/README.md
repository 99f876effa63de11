# gail_trading

A GAIL (generative adversarial imitation learning) trading agent, split in two:

- `src/` — the verified core (Verus): expert-dataset bookkeeping and batch
  sampling (`dataset`, `sampling`), the candidate windows of a price series
  (`windows`), the schedule of the state features (`features`), the step
  cursor of the market replay (`replay`), the action table (`action`), and the
  request side of the Bybit kline client (`bybit`).
- `app/` — the numeric side in plain Rust: floating-point features, the
  discriminator and policy networks, the trading environment's portfolio
  arithmetic, the training loop, and the HTTP call to Bybit.
- `tests/` — tests of the verified core.
