//! Verified core of the SHBT reconstruction workspace: the integer and
//! byte-level logic of the kernel register map and SECDED code, the
//! dark-ledger frame, the telemetry ring, the EDA stream writers, the
//! power ledger and the small control-plane helpers.

pub mod bytes;
pub mod causal;
pub mod ecc;
pub mod frame;
pub mod gates;
pub mod gdsii;
pub mod gst;
pub mod gum;
pub mod interposer;
pub mod kernel;
pub mod lanr;
pub mod step;
pub mod stinespring;
pub mod telemetry;
pub mod thermo;
pub mod translocate;
pub mod vis;
