//! The requirement engine: every registered requirement is evaluated in a
//! fixed order, and each fixable failure is offered interactive remediation.
//! The engine decides; the surrounding program prompts, applies fixes, and
//! reports outcomes back.  One requirement's failure never stops the
//! evaluation of the rest.

use vstd::prelude::*;

use crate::requirements::Requirement;

verus! {

/// Where one requirement stands within a run of the engine.
#[derive(Clone, Copy, Debug, PartialEq, Eq, Structural)]
pub enum RemediationState {
    /// Not yet evaluated.
    Pending,
    /// Evaluated, with its outcome and whether a fix exists.
    Evaluated { passed: bool, fixable: bool },
    /// No remediation is offered: the check passed, or no fix exists.
    Skipped,
    /// A fix exists and the check failed: remediation is offered.
    Offered,
    /// The user accepted and the fix is being applied.
    Fixing,
    /// The fix was applied successfully.
    Applied,
    /// The user declined the fix.
    Declined,
    /// The fix was attempted and failed.
    FixFailed,
}

/// Remediation is offered exactly for a fixable requirement whose check
/// failed.
pub fn should_offer_fix(passed: bool, fixable: bool) -> (r: bool)
    ensures
        r == (!passed && fixable),
{
    !passed && fixable
}

/// Whether a requirement may be offered remediation at all.
pub fn filter_fixable<R: Requirement>(requirement: &R) -> (r: bool)
    ensures
        r == requirement.spec_fixable(),
{
    requirement.fixable()
}

impl RemediationState {
    /// Record the outcome of the requirement's check.
    pub fn evaluate(self, passed: bool, fixable: bool) -> (r: Self)
        requires
            self is Pending,
        ensures
            r == (RemediationState::Evaluated { passed, fixable }),
    {
        RemediationState::Evaluated { passed, fixable }
    }

    /// Decide whether to offer remediation: offered iff the check failed and
    /// a fix exists; otherwise the requirement is skipped (after logging).
    pub fn decide(self) -> (r: Self)
        requires
            self is Evaluated,
        ensures
            self matches RemediationState::Evaluated { passed, fixable } ==> r == (if !passed
                && fixable {
                RemediationState::Offered
            } else {
                RemediationState::Skipped
            }),
    {
        match self {
            RemediationState::Evaluated { passed, fixable } => {
                if should_offer_fix(passed, fixable) {
                    RemediationState::Offered
                } else {
                    RemediationState::Skipped
                }
            },
            _ => {
                // excluded by the precondition
                proof {
                    assert(false);
                }
                self
            },
        }
    }

    /// Record the user's answer to the remediation prompt.
    pub fn answer(self, yes: bool) -> (r: Self)
        requires
            self is Offered,
        ensures
            r == (if yes {
                RemediationState::Fixing
            } else {
                RemediationState::Declined
            }),
    {
        if yes {
            RemediationState::Fixing
        } else {
            RemediationState::Declined
        }
    }

    /// Record whether the accepted fix was applied successfully.
    pub fn record_fix_outcome(self, ok: bool) -> (r: Self)
        requires
            self is Fixing,
        ensures
            r == (if ok {
                RemediationState::Applied
            } else {
                RemediationState::FixFailed
            }),
    {
        if ok {
            RemediationState::Applied
        } else {
            RemediationState::FixFailed
        }
    }
}

} // verus!
