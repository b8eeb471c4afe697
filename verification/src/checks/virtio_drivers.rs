//! Virtio driver requirement: the running kernel's build configuration must
//! mention both the block and the net virtio driver markers.

use vstd::prelude::*;

use crate::requirements::{CheckResult, Requirement};
use crate::strings::{contains_substr, has_substr};

verus! {

/// Outcome of the virtio driver check.
pub struct VirtioDriversCheckResult {
    pub passed: bool,
}

impl CheckResult for VirtioDriversCheckResult {
    open spec fn spec_passed(&self) -> bool {
        self.passed
    }

    fn passed(&self) -> (r: bool) {
        self.passed
    }
}

/// The virtio driver requirement.  Not fixable.
#[derive(Debug)]
pub struct VitioDriversRequirement;

impl Requirement for VitioDriversRequirement {
    open spec fn spec_fixable(&self) -> bool {
        false
    }

    fn fixable(&self) -> (r: bool) {
        false
    }
}

/// Evaluate the virtio driver requirement against the contents of the kernel
/// build configuration file: it passes iff both the block-driver and the
/// net-driver marker occur in it.
pub fn check_virtio_drivers(config_content: &str) -> (r: VirtioDriversCheckResult)
    ensures
        r.passed == (contains_substr(config_content@, "VIRTIO_BLK"@) && contains_substr(
            config_content@,
            "VIRTIO_NET"@,
        )),
{
    let passed = has_substr(config_content, "VIRTIO_BLK") && has_substr(
        config_content,
        "VIRTIO_NET",
    );
    VirtioDriversCheckResult { passed }
}

} // verus!
