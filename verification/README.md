# indicator_core

Structural market analysis over integer price ticks, verified with Verus: swing sequences,
Elliott wave rule checking, harmonic patterns, chart-pattern detection and lifecycles, candle
patterns, market-structure breaks, fair value gaps, order blocks, liquidity sweeps and pools,
cross-detector confluence, price levels, relative volume at time, rank correlation, the MIDAS
projection lifecycle, and the discrete configuration of the streaming indicators.

## Units

- Prices are integer ticks of the instrument, so every comparison between prices is exact.
- Ratios and thresholds are integers with an explicit scale: thousandths (harmonic ratios,
  Fibonacci levels), parts per million (candle shares), thousandths of a percent (level
  tolerances). Shares are compared by cross-multiplication, never by a rounded quotient.
- Levels that fall between ticks are given in a finer unit that holds them exactly (thousandths
  of a tick for price levels, 1/8000 of a tick for harmonic reversal zones).

## Layout

- `src/` — the verified library. Each module states its behaviour as `requires`/`ensures`
  contracts over spec functions, and the properties that span calls (terminal lifecycle
  states, the catalog of candle patterns, eviction of overlapping chart patterns, reflection
  invariance of the Elliott rules, ...) as public proof functions.
- `tests/` — tests of the library on concrete values.
- `app/` — the floating-point surface: indicator outputs and alert strengths, the candle
  story's average true range, the Elliott pullback quality, Bollinger bands and the commodity
  channel index, chart-pattern confidence and its ranking, liquidity-pool levels, the ratios
  formed from the library's exact sums (relative volume, rank correlation), and serde mirrors of
  the library's configuration and event types.
