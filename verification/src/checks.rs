//! The six environment requirement checks.  Each check's decision logic is a
//! verified function over plain inputs; reading those inputs from the machine
//! is left to the surrounding program.

pub mod boot_disk_size;
pub mod cloud_init;
pub mod dhcp_enabled;
pub mod kernel_args;
pub mod os_support;
pub mod virtio_drivers;
