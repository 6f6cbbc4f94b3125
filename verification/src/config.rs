//! The user configuration (`config.toml`): every field optional, with the
//! UI tick clamped to a sane range.

use vstd::prelude::*;

verus! {

/// The terminal palette the user asked for.
#[derive(Debug, Clone, Copy, PartialEq, Eq, Structural)]
pub enum ColorMode {
    /// The Civ palette: parchment chrome, green terrain, blue ocean.
    Auto,
    /// The restrained palette: healthy state carries no color.
    Plain,
    /// No color at all; meaning carried by modifiers.
    Mono,
}

impl Default for ColorMode {
    fn default() -> (r: Self)
        ensures
            r == ColorMode::Auto,
    {
        ColorMode::Auto
    }
}

/// The default UI coalescing tick, in milliseconds.
pub const DEFAULT_TICK_MS: u64 = 250;
/// The fastest tick the client accepts.
pub const MIN_TICK_MS: u64 = 50;
/// The slowest tick the client accepts.
pub const MAX_TICK_MS: u64 = 5000;

/// Loaded from the user's `config.toml` when present; every field has a
/// default so the file is optional.
#[derive(Debug, Clone)]
pub struct Config {
    /// UI coalescing tick in milliseconds.
    pub tick_ms: Option<u64>,
    pub color: ColorMode,
    /// Start with the attention panel expanded.
    pub attention_expanded: bool,
    /// Warm-standby context to observe alongside the hot cluster.
    pub warm_context: Option<String>,
    /// CRDs to project onto the world map, by CRD name.
    pub projections: Vec<String>,
}

impl Default for Config {
    fn default() -> (r: Self)
        ensures
            r.tick_ms is None,
            r.color == ColorMode::Auto,
            !r.attention_expanded,
            r.warm_context is None,
            r.projections@.len() == 0,
    {
        Config {
            tick_ms: None,
            color: ColorMode::Auto,
            attention_expanded: false,
            warm_context: None,
            projections: Vec::new(),
        }
    }
}

/// `x` clamped into `[lo, hi]`.
pub open spec fn clamp_spec(x: int, lo: int, hi: int) -> int {
    if x < lo {
        lo
    } else if x > hi {
        hi
    } else {
        x
    }
}

/// The effective tick: the configured value (or the default) clamped into
/// the accepted range.
pub open spec fn tick_ms_spec(configured: Option<u64>) -> int {
    let raw: int = match configured {
        Some(t) => t as int,
        None => DEFAULT_TICK_MS as int,
    };
    clamp_spec(raw, MIN_TICK_MS as int, MAX_TICK_MS as int)
}

impl Config {
    /// The UI tick in milliseconds, always within `[50, 5000]`.
    pub fn tick_ms(&self) -> (r: u64)
        ensures
            r == tick_ms_spec(self.tick_ms),
            MIN_TICK_MS <= r <= MAX_TICK_MS,
    {
        let raw = match self.tick_ms {
            Some(t) => t,
            None => DEFAULT_TICK_MS,
        };
        if raw < MIN_TICK_MS {
            MIN_TICK_MS
        } else if raw > MAX_TICK_MS {
            MAX_TICK_MS
        } else {
            raw
        }
    }
}

} // verus!
