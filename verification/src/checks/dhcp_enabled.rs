//! DHCP requirement: some file in the network-configuration directory must
//! contain the literal marker that enables DHCPv4.

use vstd::prelude::*;

use crate::requirements::{CheckResult, Requirement};
use crate::strings::{contains_substr, has_substr};

verus! {

/// The literal substring that marks DHCPv4 as enabled in a configuration
/// file.
pub open spec fn dhcp_marker() -> Seq<char> {
    "dhcp4: true"@
}

/// Outcome of the DHCP check.
pub struct DhcpEnabledCheckResult {
    pub is_enabled: bool,
}

impl CheckResult for DhcpEnabledCheckResult {
    open spec fn spec_passed(&self) -> bool {
        self.is_enabled
    }

    fn passed(&self) -> (r: bool) {
        self.is_enabled
    }
}

/// The DHCP requirement.  Not fixable.
#[derive(Debug)]
pub struct DhcpEnabledRequirement;

impl Requirement for DhcpEnabledRequirement {
    open spec fn spec_fixable(&self) -> bool {
        false
    }

    fn fixable(&self) -> (r: bool) {
        false
    }
}

/// Evaluate the DHCP requirement against the contents of every file found in
/// the network-configuration directory: it passes iff any of them contains
/// the DHCPv4 marker.
pub fn check_dhcp_enabled(config_contents: &Vec<String>) -> (r: DhcpEnabledCheckResult)
    ensures
        r.is_enabled == (exists|i: int|
            0 <= i < config_contents.deep_view().len() && contains_substr(
                #[trigger] config_contents.deep_view()[i],
                dhcp_marker(),
            )),
{
    let n = config_contents.len();
    let mut i: usize = 0;
    while i < n
        invariant
            n == config_contents.len(),
            0 <= i <= n,
            forall|j: int| 0 <= j < i ==> !contains_substr(
                #[trigger] config_contents.deep_view()[j],
                dhcp_marker(),
            ),
        decreases n - i,
    {
        if has_substr(config_contents[i].as_str(), "dhcp4: true") {
            proof {
                assert(contains_substr(config_contents.deep_view()[i as int], dhcp_marker()));
            }
            return DhcpEnabledCheckResult { is_enabled: true };
        }
        i += 1;
    }
    DhcpEnabledCheckResult { is_enabled: false }
}

} // verus!
