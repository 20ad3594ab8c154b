//! Handles of the state translocator and of its Gram positivity verifier.

use vstd::prelude::*;

verus! {

/// Gram matrix eigenvalue positivity verifier.
#[derive(Clone, Debug, Default)]
pub struct GramPositivityVerifier;

impl GramPositivityVerifier {
    pub fn new() -> Self {
        GramPositivityVerifier
    }
}

/// Boundary relabeling + phase-locked excitation translocator; it enforces
/// Gram positivity through its verifier before every relabeling.
#[derive(Clone, Debug)]
pub struct ModularStateTranslocator {
    pub verifier: GramPositivityVerifier,
}

impl ModularStateTranslocator {
    pub fn new() -> Self {
        ModularStateTranslocator { verifier: GramPositivityVerifier::new() }
    }
}

impl Default for ModularStateTranslocator {
    fn default() -> Self {
        Self::new()
    }
}

} // verus!
