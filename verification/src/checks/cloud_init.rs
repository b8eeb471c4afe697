//! Cloud-init presence requirement: the check passes iff querying the
//! cloud-init binary for its version succeeded.

use vstd::prelude::*;

use crate::requirements::{CheckResult, Requirement};

verus! {

/// Outcome of the cloud-init presence check.
pub struct CloudInitCheckResult {
    pub is_installed: bool,
}

impl CheckResult for CloudInitCheckResult {
    open spec fn spec_passed(&self) -> bool {
        self.is_installed
    }

    fn passed(&self) -> (r: bool) {
        self.is_installed
    }
}

/// The cloud-init presence requirement.  Not fixable.
#[derive(Debug)]
pub struct CloudInitRequirement;

impl Requirement for CloudInitRequirement {
    open spec fn spec_fixable(&self) -> bool {
        false
    }

    fn fixable(&self) -> (r: bool) {
        false
    }
}

/// Evaluate the cloud-init requirement from whether the version query
/// succeeded.
pub fn check_cloud_init(version_query_ok: bool) -> (r: CloudInitCheckResult)
    ensures
        r.is_installed == version_query_ok,
{
    CloudInitCheckResult { is_installed: version_query_ok }
}

} // verus!
