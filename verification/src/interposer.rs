//! 12-layer Rogers RO4350B / glass 3D interposer stackup and the sweep
//! and DMA constants of its Touchstone export.

use vstd::prelude::*;

verus! {

/// Stackup layer count (signal/plane/power/core alternating).
pub const LAYER_COUNT: usize = 12;
/// Touchstone sweep line count (points).
pub const SWEEP_POINTS: usize = 401;

/// Per-layer stackup entry.
#[derive(Clone, Copy, Debug)]
pub struct Layer {
    /// Layer role.
    pub role: &'static str,
    /// Material.
    pub material: &'static str,
    /// Thickness (um).
    pub thickness_um: u32,
}

/// Layer `i` of the stackup (top to bottom): the group signal / plane /
/// power / glass core, repeated three times.
pub open spec fn stack_layer(i: int) -> Layer {
    if i % 4 == 0 {
        Layer { role: "signal", material: "RO4350B/Cu", thickness_um: 35 }
    } else if i % 4 == 1 {
        Layer { role: "plane", material: "RO4350B", thickness_um: 18 }
    } else if i % 4 == 2 {
        Layer { role: "power", material: "RO4350B/Cu", thickness_um: 25 }
    } else {
        Layer { role: "core", material: "glass", thickness_um: 100 }
    }
}

/// Normative 12-layer RO4350B/glass stackup (top to bottom).
pub fn stackup() -> (r: [Layer; LAYER_COUNT])
    ensures
        forall|i: int| 0 <= i < LAYER_COUNT ==> #[trigger] r@[i] == stack_layer(i),
{
    let signal = Layer { role: "signal", material: "RO4350B/Cu", thickness_um: 35 };
    let plane = Layer { role: "plane", material: "RO4350B", thickness_um: 18 };
    let power = Layer { role: "power", material: "RO4350B/Cu", thickness_um: 25 };
    let core = Layer { role: "core", material: "glass", thickness_um: 100 };
    let r = [signal, plane, power, core, signal, plane, power, core, signal, plane, power, core];
    assert forall|i: int| 0 <= i < LAYER_COUNT implies #[trigger] r@[i] == stack_layer(i) by {
        assert(r@[i] == r[i]);
    }
    r
}

} // verus!
