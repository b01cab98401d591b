# reverse_period

The Reverse Period terminal detects "reverse period" market regimes from a
stream of candles and plans tool calls for natural-language queries.

Layout:

- `src/` is the verified library (Verus):
  - `state.rs`: the bounded candle window and its sliding-window law;
  - `types.rs`: system states, the detection matrix, the integer settings;
  - `detectors.rs`: assembly of the six-lambda detection matrix, killzones;
  - `ticks.rs`: the time bucket of a tick and what it does to the candle
    being built;
  - `engine.rs`: the engine's decision state machine and its laws;
  - `meta_cognitive.rs`, `text.rs`: intent analysis, tool planning and plan
    execution, with the text helpers they use (substring search, integer
    parsing, decimal formatting);
  - `neuro_symbolic.rs`, `config.rs`, `providers.rs`: graphs, credentials,
    data-source records and the reading of Bitget candle-row timestamps.
- `app/` is the program around it: floating-point price arithmetic (moving
  averages, ATR, the float readings that feed the detection matrix and the
  engine), data sources (network, CSV, environment, clock, randomness) and the
  JSON/JS output.
- `tests/` runs the library on concrete values.
