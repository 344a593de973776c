# gym-core

The deterministic core of a Gymnasium-style backtest environment, verified with
Verus. A JSON spec (observation features, action space, reward kind, episode
bounds) and a candle dataset are precomputed once into a fixed feature tensor,
so each step is a constant-time row index.

## Layout

- `src/` — the verified library:
  - `feature`, `spec`: the observation model, canonical column keys, the
    column layout and its length, the structural and warmup checks;
  - `feeds`: which feed an indicator needs and which a dataset supplies, and
    the refusal of an indicator whose feed is absent;
  - `rollout`: the episode cursor (`reset`, `step`, `terminated`/`truncated`)
    with its laws (episode length, final states, reset independence);
  - `tensor`: the row-major feature tensor and its builder;
  - `indicators`: sub-output selection for multi-output indicators;
  - `command`, `ffi`: the command routing, replies, JSON string encoding and
    the exactly-once reply cache of the C ABI;
  - `json`: what a JSON string literal stands for, and the laws that every
    literal the crate writes reads back as its text and holds no control
    character;
  - `cli`: the runner's policies and options.
- `app/` — the runner binary and everything holding floating-point values:
  serde wire types, feature values, rewards, the action mapping, the
  indicator registry, the C ABI functions.
- `tests/` — tests of the library.
