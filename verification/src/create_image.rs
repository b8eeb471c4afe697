//! Creation of a compressed disk image from a block device: validation,
//! tooling, conflict checking, free-space zeroing, conversion and
//! verification, sequenced by a fail-fast pipeline.

pub mod error;
pub mod free_space;
pub mod partitions;
pub mod qemu_img;
pub mod run_process;
