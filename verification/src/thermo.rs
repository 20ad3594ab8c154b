//! Landauer GET accounting and the CVD Diamond-on-GaN substrate model.

use vstd::prelude::*;

verus! {

/// GET operation cost calculator.
#[derive(Clone, Copy, Debug, Default)]
pub struct LandauerGetCalculator;

impl LandauerGetCalculator {
    pub fn new() -> Self {
        LandauerGetCalculator
    }
}

/// Substrate material layer.
#[derive(Clone, Copy, Debug, PartialEq, Eq)]
pub enum SubstrateLayer {
    /// CVD Diamond-on-GaN thermal spreader.
    DiamondOnGaN,
    /// NbN superconducting signal traces.
    NbN,
    /// MgB2 superconducting power bus.
    MgB2,
    /// Single-crystal sapphire dielectric base.
    Sapphire,
}

/// CVD Diamond-on-GaN nodal thermal solver.
#[derive(Clone, Debug, Default)]
pub struct DiamondGaNThermalModel;

impl DiamondGaNThermalModel {
    pub fn new() -> Self {
        DiamondGaNThermalModel
    }
}

} // verus!
