//! Structural market analysis on integer price ticks: swing sequences, Elliott wave rule
//! checking, harmonic ratio tables, chart-pattern lifecycles, market-structure breaks,
//! cross-detector confluence and the discrete configuration of the streaming indicators.

pub mod swing;
pub mod model;
pub mod elliott;
pub mod harmonics;
pub mod text;
pub mod smart_money;
pub mod registry;
pub mod engines;
pub mod choices;
pub mod chandelier;
pub mod chart_patterns;
pub mod bar;
pub mod structure;
pub mod fvg;
pub mod sweeps;
pub mod candle_story;
pub mod chart_detector;
pub mod pivot_structure;
pub mod price_levels;
pub mod efficiency;
pub mod midas;
pub mod order_block;
pub mod rvat;
pub mod rci;
