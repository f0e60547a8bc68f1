//! Advisory findings for the install-script heuristic.
//!
//! This severity scale has two active levels (Low and Medium) and is separate
//! from the four-level risk-score scale; the two are never compared.

use vstd::prelude::*;

verus! {

/// Severity of an install-script finding. Only `Low` and `Medium` are
/// produced by the heuristic.
#[derive(Debug, Clone, Copy, PartialEq, Eq, Structural)]
pub enum Severity {
    Low,
    Medium,
    High,
}

/// One advisory finding about a lifecycle script.
#[derive(Debug, Clone)]
pub struct Finding {
    pub severity: Severity,
    pub message: String,
}

} // verus!
