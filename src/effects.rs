//! Effects: stateful strategies that produce one frame per step.
use vstd::prelude::*;
use crate::frame::LedData;

pub mod test;
pub mod rainbow;
pub mod random;
pub mod coding;
pub mod typing_ripple;

verus! {

/// The delay between updates of an effect that names none, in milliseconds.
pub const DEFAULT_DELAY_MS: u64 = 10;

/// What an effect asks of the render loop.
#[derive(Clone, Copy, Debug, PartialEq, Eq, Structural)]
pub struct EffectConfig {
    /// Least time between two updates, in milliseconds.
    pub delay_ms: u64,
}

/// Why an update produced nothing.
#[derive(Clone, Copy, Debug, PartialEq, Eq, Structural)]
pub enum EffectError {
    /// The outside signal that drives the effect could not be read.
    SignalUnavailable,
}

/// A unit of state that produces frames on demand.
pub trait Effect {
    /// Advances one step; `Ok(None)` means that nothing visible changed.
    fn update(&mut self) -> Result<Option<LedData>, EffectError>;

    /// The effect's cadence.
    fn get_config(&self) -> (r: EffectConfig)
        default_ensures
            r.delay_ms == DEFAULT_DELAY_MS,
    {
        EffectConfig { delay_ms: DEFAULT_DELAY_MS }
    }
}

} // verus!
