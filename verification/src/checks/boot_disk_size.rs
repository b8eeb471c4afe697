//! Boot-disk size requirement: the total capacity of all visible disks,
//! converted to whole gigabytes by truncating division, must be strictly
//! below a 250 GB ceiling.  A total below a 10 GB floor still passes, but is
//! flagged, since the consuming platform rounds such disks up.

use vstd::prelude::*;

use crate::requirements::{CheckResult, Requirement};

verus! {

/// Bytes per gigabyte, as used by the size conversion.
pub const BYTES_PER_GB: u128 = 1024 * 1024 * 1024;

/// Total capacity in bytes over a list of disk sizes.
pub open spec fn total_bytes(sizes: Seq<u64>) -> int
    decreases sizes.len(),
{
    if sizes.len() == 0 {
        0
    } else {
        sizes[0] + total_bytes(sizes.drop_first())
    }
}

/// Total capacity in whole gigabytes, truncating.
pub open spec fn total_gb(sizes: Seq<u64>) -> int {
    total_bytes(sizes) / (BYTES_PER_GB as int)
}

pub proof fn lemma_total_bytes_bounds(sizes: Seq<u64>)
    ensures
        0 <= total_bytes(sizes) <= sizes.len() * 0xFFFF_FFFF_FFFF_FFFF,
    decreases sizes.len(),
{
    if sizes.len() == 0 {
    } else {
        lemma_total_bytes_bounds(sizes.drop_first());
        assert(sizes.drop_first().len() == sizes.len() - 1);
        assert((sizes.len() - 1) * 0xFFFF_FFFF_FFFF_FFFF + 0xFFFF_FFFF_FFFF_FFFF == sizes.len()
            * 0xFFFF_FFFF_FFFF_FFFF) by (nonlinear_arith);
    }
}

/// Outcome of the boot-disk size check.  `below_minimum` records the flagged
/// (but passing) sub-10 GB case.
pub struct BootDiskSizeCheckResult {
    pub is_supported: bool,
    pub actual_size_in_gb: u64,
    pub below_minimum: bool,
}

impl CheckResult for BootDiskSizeCheckResult {
    open spec fn spec_passed(&self) -> bool {
        self.is_supported
    }

    fn passed(&self) -> (r: bool) {
        self.is_supported
    }
}

/// The boot-disk size requirement.  Not fixable.
#[derive(Debug)]
pub struct BootDiskSizeRequirement;

impl Requirement for BootDiskSizeRequirement {
    open spec fn spec_fixable(&self) -> bool {
        false
    }

    fn fixable(&self) -> (r: bool) {
        false
    }
}

/// Evaluate the boot-disk size requirement from the capacities, in bytes, of
/// every visible disk.
pub fn check_boot_disk_size(disk_sizes: &Vec<u64>) -> (r: BootDiskSizeCheckResult)
    ensures
        r.is_supported == (total_gb(disk_sizes@) < 250),
        r.below_minimum == (total_gb(disk_sizes@) < 10),
        r.actual_size_in_gb as int == if total_gb(disk_sizes@) > u64::MAX as int {
            u64::MAX as int
        } else {
            total_gb(disk_sizes@)
        },
{
    let ghost total = total_bytes(disk_sizes@);
    let n = disk_sizes.len();
    proof {
        lemma_total_bytes_bounds(disk_sizes@);
        assert(disk_sizes@.len() == n);
        assert(n <= usize::MAX);
        assert(disk_sizes@.len() * 0xFFFF_FFFF_FFFF_FFFF <= 0xFFFF_FFFF_FFFF_FFFF
            * 0xFFFF_FFFF_FFFF_FFFF) by (nonlinear_arith)
            requires
                disk_sizes@.len() <= 0xFFFF_FFFF_FFFF_FFFF,
        ;
        assert(disk_sizes@.skip(0) =~= disk_sizes@);
    }
    let mut sum: u128 = 0;
    let mut i: usize = 0;
    while i < n
        invariant
            n == disk_sizes.len(),
            0 <= i <= n,
            total == sum + total_bytes(disk_sizes@.skip(i as int)),
            0 <= total <= 0xFFFF_FFFF_FFFF_FFFF * 0xFFFF_FFFF_FFFF_FFFF,
            0 <= total_bytes(disk_sizes@.skip(i as int)),
        decreases n - i,
    {
        proof {
            assert(disk_sizes@.skip(i as int).drop_first() =~= disk_sizes@.skip(i + 1));
            assert(disk_sizes@.skip(i as int)[0] == disk_sizes@[i as int]);
            lemma_total_bytes_bounds(disk_sizes@.skip(i + 1));
        }
        sum = sum + disk_sizes[i] as u128;
        i += 1;
    }
    proof {
        assert(disk_sizes@.skip(n as int) =~= Seq::<u64>::empty());
    }
    let gb: u128 = sum / BYTES_PER_GB;
    let actual_size_in_gb: u64 = if gb > u64::MAX as u128 {
        u64::MAX
    } else {
        gb as u64
    };
    BootDiskSizeCheckResult {
        is_supported: gb < 250,
        actual_size_in_gb,
        below_minimum: gb < 10,
    }
}

} // verus!
