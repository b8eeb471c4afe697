//! Common shape of the environment requirements: every requirement can be
//! checked, and some can additionally be fixed automatically.

use vstd::prelude::*;

verus! {

/// The outcome of evaluating one requirement.  `passed` must agree with the
/// diagnostic payload that the concrete result type carries.
pub trait CheckResult {
    /// Whether the requirement held, as a specification-level value.
    spec fn spec_passed(&self) -> bool;

    /// Whether the requirement held.
    fn passed(&self) -> (r: bool)
        ensures
            r == self.spec_passed(),
    ;
}

/// A single environment requirement.  A requirement that reports itself as
/// fixable has an automated remediation; one that does not must never be
/// offered remediation.
pub trait Requirement {
    /// Whether an automated fix exists, as a specification-level value.
    spec fn spec_fixable(&self) -> bool;

    /// Whether an automated fix exists.
    fn fixable(&self) -> (r: bool)
        ensures
            r == self.spec_fixable(),
    ;
}

} // verus!
