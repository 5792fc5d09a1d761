use vstd::prelude::*;

use crate::osc::{ModulationType, ModulatorOsc, PrimaryOsc, Signal};

verus! {

/// Output compression applied to the summed voices.
#[derive(Clone, Copy, Debug, PartialEq, Eq, Structural)]
pub enum GainType {
    /// `x / sqrt(1 + x^2)`
    Sigmoid,
    /// `clamp(x, -1, 1)`
    Linear,
}

impl GainType {
    /// The other gain curve.
    pub open spec fn toggled(self) -> GainType {
        match self {
            GainType::Sigmoid => GainType::Linear,
            GainType::Linear => GainType::Sigmoid,
        }
    }

    /// `value` compressed by this curve.
    pub open spec fn spec_map<F: Signal>(self, value: F) -> F {
        match self {
            GainType::Sigmoid => value.spec_sigmoid(),
            GainType::Linear => value.spec_clamp_unit(),
        }
    }

    /// Compresses `value` by this curve.
    pub fn map<F: Signal>(&self, value: F) -> (r: F)
        ensures
            r == self.spec_map(value),
    {
        match self {
            GainType::Sigmoid => value.sigmoid(),
            GainType::Linear => value.clamp_unit(),
        }
    }

    /// Switches to the other gain curve.
    pub fn next(&mut self)
        ensures
            *final(self) == old(self).toggled(),
    {
        match self {
            GainType::Linear => *self = GainType::Sigmoid,
            GainType::Sigmoid => *self = GainType::Linear,
        }
    }
}

impl Default for GainType {
    fn default() -> (r: Self)
        ensures
            r == GainType::Sigmoid,
    {
        GainType::Sigmoid
    }
}

/// A primary oscillator of a topology, for slot `slot` of every voice.
#[derive(Clone, Copy, Debug)]
pub struct PrimaryState<F> {
    pub offset: F,
    pub state: PrimaryOsc<F>,
    pub slot: usize,
}

/// A modulator of a topology, for slot `slot` of every voice.
#[derive(Clone, Copy, Debug)]
pub struct ModulatorState<F> {
    pub offset: F,
    pub state: ModulatorOsc<F>,
    pub slot: usize,
}

/// A complete oscillator topology, as the editor resolves it into slots.
#[derive(Clone, Debug)]
pub struct SolarState<F> {
    pub primary_states: Vec<PrimaryState<F>>,
    pub modulator_states: Vec<ModulatorState<F>>,
}

/// Messages from the editor to the audio engine.
#[derive(Clone, Debug)]
pub enum ComMsg<F> {
    StateChange(SolarState<F>),
    ModRelationChanged(ModulationType),
    GainChange(GainType),
    ResetPhaseChanged(bool),
}

} // verus!
