//! GST phase-change switch array: register offsets, the `GST_PULSE_GEN`
//! anneal-pulse register packing, and the self-healing cycle of a channel.
//!
//! Conductivity is kept in exact integer mS/m; the crystalline baseline is
//! 3.5e4 S/m. A channel below 99.9 % of the baseline is degraded; one
//! anneal pulse restores it to 99.94 %.

use vstd::prelude::*;

verus! {

/// MMIO offset of the GST array configuration register.
pub const GST_ARRAY_CFG: u32 = 0x2000;
/// MMIO offset of the anneal pulse generator register.
pub const GST_PULSE_GEN: u32 = 0x2004;
/// MMIO offset of the conductivity sense register.
pub const GST_SENSE_SIG: u32 = 0x2008;
/// MMIO offset of the self-healing status register.
pub const GST_HEAL_STAT: u32 = 0x200C;
/// GST crystallization temperature (K).
pub const T_CRYST_K: u32 = 433;
/// GST melting threshold (K).
pub const T_MELT_K: u32 = 873;
/// Certified self-healing pulse cycles.
pub const HEALING_CYCLES: u64 = 2_500_000;

/// Phase of a GST switch.
#[derive(Debug, Clone, Copy, PartialEq, Eq)]
pub enum GstPhase {
    Crystalline,
    Amorphous,
}

/// Pack `GST_PULSE_GEN`: bits 0-11 pulse duration (ns), bits 12-31 fluence
/// level (mJ/cm^2 x 10). Bits that do not fit their field are dropped.
pub fn pack_pulse_gen(pulse_ns: u32, fluence_mj_cm2_tenths: u32) -> (r: u32)
    ensures
        r == (fluence_mj_cm2_tenths << 12u32) | (pulse_ns & 0xFFFu32),
        r & 0xFFFu32 == pulse_ns & 0xFFFu32,
        r >> 12u32 == fluence_mj_cm2_tenths & 0xF_FFFFu32,
{
    proof {
        lemma_pulse_fields(pulse_ns, fluence_mj_cm2_tenths);
    }
    (fluence_mj_cm2_tenths << 12u32) | (pulse_ns & 0xFFFu32)
}

proof fn lemma_pulse_fields(p: u32, f: u32)
    by (bit_vector)
    ensures
        ((f << 12u32) | (p & 0xFFFu32)) & 0xFFFu32 == p & 0xFFFu32,
        ((f << 12u32) | (p & 0xFFFu32)) >> 12u32 == f & 0xF_FFFFu32,
{
}

/// Nominal crystalline conductivity (mS/m), 3.5e4 S/m.
pub const SIGMA_0_MS_PER_M: u64 = 35_000_000;
/// Degradation threshold, parts per million of the baseline (99.9 %).
pub const DEGRADATION_THRESHOLD_PPM: u64 = 999_000;
/// Conductivity after an anneal pulse (mS/m), 99.94 % of the baseline.
pub const HEALED_MS_PER_M: u64 = 34_979_000;

/// Conductivity as parts per million of the baseline, rounded down.
pub open spec fn ratio_ppm(conductivity_ms_per_m: u64) -> int {
    (conductivity_ms_per_m * 1_000_000) / (SIGMA_0_MS_PER_M as int)
}

/// One GST routing channel.
#[derive(Debug, Clone)]
pub struct GstChannel {
    pub channel_id: u16,
    pub conductivity_ms_per_m: u64,
    pub phase: GstPhase,
    pub heal_count: u32,
}

impl GstChannel {
    /// A fresh crystalline channel at the baseline conductivity.
    pub fn new(channel_id: u16) -> (r: Self)
        ensures
            r.channel_id == channel_id,
            r.conductivity_ms_per_m == SIGMA_0_MS_PER_M,
            r.phase == GstPhase::Crystalline,
            r.heal_count == 0,
    {
        GstChannel { channel_id, conductivity_ms_per_m: SIGMA_0_MS_PER_M, phase: GstPhase::Crystalline, heal_count: 0 }
    }

    /// Remaining conductivity, parts per million of the baseline.
    pub fn conductivity_ratio_ppm(&self) -> (r: u64)
        ensures
            r == ratio_ppm(self.conductivity_ms_per_m),
    {
        (self.conductivity_ms_per_m as u128 * 1_000_000 / SIGMA_0_MS_PER_M as u128) as u64
    }

    /// True when the channel has degraded below the 99.9 % threshold.
    pub fn degraded(&self) -> (r: bool)
        ensures
            r == (ratio_ppm(self.conductivity_ms_per_m) < DEGRADATION_THRESHOLD_PPM),
            r == (self.conductivity_ms_per_m * 1000 < 999 * SIGMA_0_MS_PER_M),
    {
        proof {
            let c = self.conductivity_ms_per_m as int;
            assert((c * 1_000_000) / 35_000_000 < 999_000 <==> c * 1000 < 999 * 35_000_000) by (nonlinear_arith)
                requires
                    c >= 0,
            ;
        }
        self.conductivity_ratio_ppm() < DEGRADATION_THRESHOLD_PPM
    }
}

/// Execute one self-healing cycle: a degraded channel is annealed back to
/// the crystalline phase at 99.94 % conductivity and its heal count grows
/// by one; a healthy channel is left alone. Returns the post-cycle
/// conductivity ratio in parts per million.
pub fn trigger_gst_self_healing_pulse(ch: &mut GstChannel) -> (r: u64)
    requires
        ratio_ppm(old(ch).conductivity_ms_per_m) < DEGRADATION_THRESHOLD_PPM ==> old(ch).heal_count < u32::MAX,
    ensures
        ratio_ppm(old(ch).conductivity_ms_per_m) >= DEGRADATION_THRESHOLD_PPM ==> *final(ch) == *old(ch),
        ratio_ppm(old(ch).conductivity_ms_per_m) < DEGRADATION_THRESHOLD_PPM ==> *final(ch) == (GstChannel {
            conductivity_ms_per_m: HEALED_MS_PER_M,
            phase: GstPhase::Crystalline,
            heal_count: (old(ch).heal_count + 1) as u32,
            ..*old(ch)
        }),
        r == ratio_ppm(final(ch).conductivity_ms_per_m),
        ratio_ppm(final(ch).conductivity_ms_per_m) >= DEGRADATION_THRESHOLD_PPM,
{
    if !ch.degraded() {
        return ch.conductivity_ratio_ppm();
    }
    ch.heal_count = ch.heal_count + 1;
    ch.phase = GstPhase::Crystalline;
    ch.conductivity_ms_per_m = HEALED_MS_PER_M;
    proof {
        assert(ratio_ppm(HEALED_MS_PER_M) == 999_400);
    }
    ch.conductivity_ratio_ppm()
}

} // verus!
