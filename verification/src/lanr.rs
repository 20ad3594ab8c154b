//! 1,800-module LANR power plant ledger.
//!
//! Power is kept in exact integer centiwatts: each module delivers
//! 507.32 W net, against a continuous entropy-debt demand of 906.00 kW.

use vstd::prelude::*;
use vstd::arithmetic::div_mod::lemma_fundamental_div_mod_converse;

verus! {

/// Number of LANR reactor modules.
pub const MODULE_COUNT: u32 = 1800;
/// Maximum survivable module failures (10 % residual power).
pub const K_MAX_SURVIVABLE: u32 = 1607;
/// Net electrical output per module, centiwatts (507.32 W).
pub const MODULE_NET_CW: u64 = 50732;
/// Continuous entropy-debt demand, centiwatts (906.00 kW).
pub const DEMAND_CW: u64 = 90_600_000;

/// Net output of `modules` running modules, centiwatts.
pub open spec fn output_cw(modules: int) -> int {
    modules * MODULE_NET_CW
}

/// `modules` running modules cover the demand.
pub open spec fn covers_demand(modules: int) -> bool {
    output_cw(modules) >= DEMAND_CW
}

/// Aggregate LANR plant (`active_modules` running).
#[derive(Clone, Copy, Debug)]
pub struct LanrPlant {
    pub active_modules: u32,
}

impl LanrPlant {
    /// A plant with all 1,800 modules active.
    pub fn new() -> (r: Self)
        ensures
            r.active_modules == MODULE_COUNT,
    {
        LanrPlant { active_modules: MODULE_COUNT }
    }

    /// True when the active modules cover the continuous demand.
    pub fn meets_demand(&self) -> (r: bool)
        ensures
            r == covers_demand(self.active_modules as int),
    {
        self.active_modules as u64 * MODULE_NET_CW >= DEMAND_CW
    }
}

impl Default for LanrPlant {
    fn default() -> (r: Self)
        ensures
            r.active_modules == MODULE_COUNT,
    {
        Self::new()
    }
}

/// LANR power plant ledger: the number of failed modules.
#[derive(Clone, Debug)]
pub struct LanrPowerLedger {
    /// Currently failed modules.
    pub failed_modules: u32,
}

/// Whole modules of surplus over demand, rounded down (negative when short).
pub open spec fn reserve_of(failed: int) -> int {
    (output_cw(MODULE_COUNT - failed) - DEMAND_CW) / (MODULE_NET_CW as int)
}

impl LanrPowerLedger {
    /// A ledger with no failed modules.
    pub fn new() -> (r: Self)
        ensures
            r.failed_modules == 0,
    {
        LanrPowerLedger { failed_modules: 0 }
    }

    /// Inject `k` module failures (capped at the module count).
    pub fn inject_failures(&mut self, k: u32)
        ensures
            final(self).failed_modules == if k < MODULE_COUNT {
                k
            } else {
                MODULE_COUNT
            },
    {
        self.failed_modules = if k < MODULE_COUNT {
            k
        } else {
            MODULE_COUNT
        };
    }

    /// Surplus modules beyond the demand floor, rounded down (+14 nominal).
    pub fn reserve_modules(&self) -> (r: i64)
        requires
            self.failed_modules <= MODULE_COUNT,
        ensures
            r == reserve_of(self.failed_modules as int),
    {
        let s = (MODULE_COUNT - self.failed_modules) as i64;
        proof {
            lemma_fundamental_div_mod_converse(
                output_cw(s as int) - DEMAND_CW,
                MODULE_NET_CW as int,
                s - 1786,
                7352,
            );
        }
        s - 1786
    }

    /// True while the surviving modules still cover the demand.
    pub fn meets_demand(&self) -> (r: bool)
        requires
            self.failed_modules <= MODULE_COUNT,
        ensures
            r == covers_demand(MODULE_COUNT - self.failed_modules),
    {
        (MODULE_COUNT - self.failed_modules) as u64 * MODULE_NET_CW >= DEMAND_CW
    }
}

impl Default for LanrPowerLedger {
    fn default() -> (r: Self)
        ensures
            r.failed_modules == 0,
    {
        Self::new()
    }
}

/// Law: the demand floor is 1,786 modules, so the full plant tolerates
/// exactly 14 failures.
pub proof fn lemma_demand_floor(modules: int)
    requires
        0 <= modules,
    ensures
        covers_demand(modules) <==> modules >= 1786,
{
}

/// Law: the ledger meets demand exactly while its reserve is non-negative.
pub proof fn lemma_reserve_sign(failed: int)
    requires
        0 <= failed <= MODULE_COUNT,
    ensures
        covers_demand(MODULE_COUNT - failed) <==> reserve_of(failed) >= 0,
        covers_demand(MODULE_COUNT - failed) <==> failed <= 14,
{
    let s = MODULE_COUNT - failed;
    lemma_fundamental_div_mod_converse(output_cw(s) - DEMAND_CW, MODULE_NET_CW as int, s - 1786, 7352);
}

/// Law: a plant with `n` active modules and a ledger with `1800 - n`
/// failed modules agree on whether demand is met.
pub proof fn lemma_plant_matches_ledger(active: u32, failed: u32)
    requires
        failed <= MODULE_COUNT,
        active == MODULE_COUNT - failed,
    ensures
        covers_demand(active as int) == covers_demand(MODULE_COUNT - failed),
{
}

} // verus!
