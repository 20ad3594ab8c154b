//! SHBT-MMIO-1 register maps of the causal engine and the shbt-os runtime.

use vstd::prelude::*;

verus! {

/// MMIO aperture base address (SHBT-MMIO-1).
pub const SHBT_MMIO_BASE: u64 = 0x7000_0000;
/// SHBT-MMIO-1 base address as seen by the 32-bit HIL bus.
pub const MMIO_BASE: u32 = 0x7000_0000;
/// Register block size in bytes (14 x 32-bit registers).
pub const MMIO_BLOCK_BYTES: usize = 56;

/// Status bit: overtemperature.
pub const STATUS_OVERTEMP: u32 = 1;
/// Status bit: PLL locked.
pub const STATUS_PLL_LOCK: u32 = 2;
/// Status bit: ECC error latched.
pub const STATUS_ECC_ERR: u32 = 4;
/// Status bit: fault state.
pub const STATUS_FAULT_ST: u32 = 8;

/// Values of the SHBT-MMIO-1 registers, in register order. The device
/// block is 14 x u32, 56 bytes at 0x70000000; the offset on each field is
/// that register's offset in the device block. This type only carries the
/// values: Rust chooses its in-memory layout, and the C-layout image of the
/// block belongs to the hardware bindings.
#[derive(Clone, Copy, Debug, Default)]
pub struct ShbtMmio1 {
    /// 0x00 CTRL_REG: master enable / soft reset / mode flags (R/W).
    pub ctrl_reg: u32,
    /// 0x04 STATUS_REG: lock / metric stability / fault flags (R).
    pub status_reg: u32,
    /// 0x08 METRIC_DET_L: |det g| lower 32 bits (R).
    pub metric_det_l: u32,
    /// 0x0C METRIC_DET_H: |det g| upper 32 bits (R).
    pub metric_det_h: u32,
    /// 0x10 GRAM_LAMBDA_MIN: smallest Gram eigenvalue (R).
    pub gram_lambda_min: u32,
    /// 0x14 BETA_SHIFT_MAG: |beta^i| during nullification (R/W).
    pub beta_shift_mag: u32,
    /// 0x18 KAPITZA_TEMP: mixing-chamber boundary readout (R).
    pub kapitza_temp: u32,
    /// 0x1C COOLING_PWR: entropic cooling offset P_cool (R/W).
    pub cooling_pwr: u32,
    /// 0x20 ECC_ERR_CNT: corrected single-bit error count (R).
    pub ecc_err_cnt: u32,
    /// 0x24 AVX_REMAP_ID: Givens vector remap table index (R/W).
    pub avx_remap_id: u32,
    /// 0x28 RECOVERY_STAGE: post-quench stage index 0..4 (R).
    pub recovery_stage: u32,
    /// 0x2C LANR_PWR_OUT: LANR net output reading (R).
    pub lanr_pwr_out: u32,
    /// 0x30 TEL_HEAD_PTR: SPSC ring head write pointer (R/W).
    pub tel_head_ptr: u32,
    /// 0x34 TEL_TAIL_PTR: SPSC ring tail read pointer (R/W).
    pub tel_tail_ptr: u32,
}

/// Register file of the shbt-os runtime, as used by the post-quench
/// recovery sequencer. The offset on each field is the register's offset in
/// the runtime's C register block; this type only carries the values.
#[derive(Clone, Copy, Debug, Default)]
pub struct MmioRegisters {
    /// 0x00 status.
    pub status: u32,
    /// 0x04 global RF blanking.
    pub blank: u32,
    /// 0x08 FIFO data.
    pub fifo_data: u32,
    /// 0x0C PLL control.
    pub pll_ctrl: u32,
    /// 0x10 ECC data low.
    pub ecc_low: u32,
    /// 0x14 ECC data high.
    pub ecc_high: u32,
    /// 0x18 ECC check bits.
    pub ecc_check: u32,
    /// 0x1C ECC commit strobe.
    pub ecc_commit: u32,
    /// 0x20 fault latch.
    pub fault_latch: u32,
    /// 0x24 channel select.
    pub channel_select: u32,
    /// 0x28 ABI version.
    pub abi_version: u32,
    /// 0x2C phase offset.
    pub phase_offset: u32,
    /// 0x30 ECC error counts.
    pub ecc_counts: u32,
    /// 0x34 control.
    pub control: u32,
}

} // verus!
