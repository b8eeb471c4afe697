use vpc_migration_tools::checks::boot_disk_size::{check_boot_disk_size, BootDiskSizeRequirement};
use vpc_migration_tools::checks::cloud_init::{check_cloud_init, CloudInitRequirement};
use vpc_migration_tools::checks::dhcp_enabled::{check_dhcp_enabled, DhcpEnabledRequirement};
use vpc_migration_tools::checks::kernel_args::KernelArgsRequirement;
use vpc_migration_tools::checks::os_support::{check_os_support, OSSupportRequirement};
use vpc_migration_tools::checks::virtio_drivers::{check_virtio_drivers, VitioDriversRequirement};
use vpc_migration_tools::requirements::{CheckResult, Requirement};
use vpc_migration_tools::run_requirements::{filter_fixable, should_offer_fix, RemediationState};

#[test]
fn test_os_support_ubuntu_22_04_passes() {
    let result = check_os_support("ubuntu", "22.04");
    assert!(result.is_supported);
    assert!(result.passed());
    assert_eq!(result.os_name, "ubuntu");
    assert_eq!(result.os_version, "22.04");
}

#[test]
fn test_os_support_ubuntu_16_04_fails() {
    let result = check_os_support("ubuntu", "16.04");
    assert!(!result.is_supported);
}

#[test]
fn test_os_support_fedora_any_version_passes() {
    assert!(check_os_support("fedora", "36").is_supported);
    assert!(check_os_support("fedora", "anything").is_supported);
}

#[test]
fn test_os_support_other_entries() {
    assert!(check_os_support("rocky", "8.5").is_supported);
    assert!(!check_os_support("rocky", "9").is_supported);
    assert!(check_os_support("windows", "2012 R2").is_supported);
    assert!(!check_os_support("arch", "2023").is_supported);
}

#[test]
fn test_boot_disk_size_ten_gb_disk_passes_with_notice() {
    let result = check_boot_disk_size(&vec![10_000_000_000]);
    assert!(result.is_supported);
    assert!(result.below_minimum);
    assert_eq!(result.actual_size_in_gb, 9);
}

#[test]
fn test_boot_disk_size_250_gb_fails() {
    let result = check_boot_disk_size(&vec![250 * 1024 * 1024 * 1024]);
    assert!(!result.is_supported);
    assert_eq!(result.actual_size_in_gb, 250);
    assert!(!result.below_minimum);
}

#[test]
fn test_boot_disk_size_249_gb_passes() {
    let result = check_boot_disk_size(&vec![249 * 1024 * 1024 * 1024]);
    assert!(result.is_supported);
    assert_eq!(result.actual_size_in_gb, 249);
    assert!(!result.below_minimum);
}

#[test]
fn test_boot_disk_size_sums_disks() {
    let result = check_boot_disk_size(&vec![200 * 1024 * 1024 * 1024, 50 * 1024 * 1024 * 1024]);
    assert!(!result.is_supported);
    assert_eq!(result.actual_size_in_gb, 250);
}

#[test]
fn test_boot_disk_size_no_disks() {
    let result = check_boot_disk_size(&vec![]);
    assert!(result.is_supported);
    assert!(result.below_minimum);
    assert_eq!(result.actual_size_in_gb, 0);
}

#[test]
fn test_cloud_init_follows_probe() {
    assert!(check_cloud_init(true).is_installed);
    assert!(!check_cloud_init(false).is_installed);
    assert!(check_cloud_init(true).passed());
}

#[test]
fn test_dhcp_enabled_marker_found() {
    let contents = vec![
        "network:\n  version: 2".to_string(),
        "network:\n  ethernets:\n    eth0:\n      dhcp4: true\n".to_string(),
    ];
    assert!(check_dhcp_enabled(&contents).is_enabled);
}

#[test]
fn test_dhcp_enabled_marker_absent() {
    let contents = vec!["network:\n  version: 2".to_string(), "dhcp4: false".to_string()];
    assert!(!check_dhcp_enabled(&contents).is_enabled);
}

#[test]
fn test_dhcp_enabled_no_files() {
    assert!(!check_dhcp_enabled(&vec![]).is_enabled);
}

#[test]
fn test_virtio_drivers_both_markers() {
    let result = check_virtio_drivers("CONFIG_VIRTIO_BLK=y\nCONFIG_VIRTIO_NET=y\n");
    assert!(result.passed);
    assert!(result.passed());
}

#[test]
fn test_virtio_drivers_one_marker_missing() {
    assert!(!check_virtio_drivers("CONFIG_VIRTIO_BLK=y\n").passed);
    assert!(!check_virtio_drivers("CONFIG_VIRTIO_NET=y\n").passed);
    assert!(!check_virtio_drivers("").passed);
}

#[test]
fn test_only_kernel_args_requirement_is_fixable() {
    assert!(!filter_fixable(&OSSupportRequirement));
    assert!(!filter_fixable(&CloudInitRequirement));
    assert!(!filter_fixable(&VitioDriversRequirement));
    assert!(!filter_fixable(&BootDiskSizeRequirement));
    assert!(!filter_fixable(&DhcpEnabledRequirement));
    assert!(filter_fixable(&KernelArgsRequirement));
    assert!(KernelArgsRequirement.fixable());
}

#[test]
fn test_should_offer_fix_table() {
    assert!(should_offer_fix(false, true));
    assert!(!should_offer_fix(true, true));
    assert!(!should_offer_fix(false, false));
    assert!(!should_offer_fix(true, false));
}

#[test]
fn test_remediation_fix_applied() {
    let s = RemediationState::Pending;
    let s = s.evaluate(false, true);
    assert_eq!(s, RemediationState::Evaluated { passed: false, fixable: true });
    let s = s.decide();
    assert_eq!(s, RemediationState::Offered);
    let s = s.answer(true);
    assert_eq!(s, RemediationState::Fixing);
    assert_eq!(s.record_fix_outcome(true), RemediationState::Applied);
}

#[test]
fn test_remediation_fix_failed() {
    let s = RemediationState::Pending.evaluate(false, true).decide().answer(true);
    assert_eq!(s.record_fix_outcome(false), RemediationState::FixFailed);
}

#[test]
fn test_remediation_declined() {
    let s = RemediationState::Pending.evaluate(false, true).decide();
    assert_eq!(s.answer(false), RemediationState::Declined);
}

#[test]
fn test_remediation_skipped_when_passed_or_unfixable() {
    assert_eq!(
        RemediationState::Pending.evaluate(true, true).decide(),
        RemediationState::Skipped
    );
    assert_eq!(
        RemediationState::Pending.evaluate(false, false).decide(),
        RemediationState::Skipped
    );
}
