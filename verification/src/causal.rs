//! Causal lightcone authorization verdicts.

use vstd::prelude::*;

verus! {

/// Hardware causal authorization verdict.
#[derive(Clone, Copy, Debug, PartialEq, Eq)]
pub enum Authorization {
    /// x_tar in J+(x_src): timelike/lightlike future-directed.
    Granted,
    /// Spacelike separation (outside the cone).
    DeniedSpacelike,
    /// Past-directed (t_tar < t_src).
    DeniedPast,
}

/// Verdict for a reconstruction hop: a past-directed target is refused
/// first, then a spacelike one; everything else is granted.
pub fn authorization_verdict(past_directed: bool, spacelike: bool) -> (r: Authorization)
    ensures
        past_directed ==> r == Authorization::DeniedPast,
        !past_directed && spacelike ==> r == Authorization::DeniedSpacelike,
        !past_directed && !spacelike ==> r == Authorization::Granted,
{
    if past_directed {
        return Authorization::DeniedPast;
    }
    if spacelike {
        return Authorization::DeniedSpacelike;
    }
    Authorization::Granted
}

/// Causal lightcone authorization (`x_tar in J+(x_src)` check).
#[derive(Clone, Copy, Debug, Default)]
pub struct LightconeAuthorization;

} // verus!
