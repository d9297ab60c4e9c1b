//! Storage and mount lifecycle of a bootable-image installer: device
//! classification, partition addressing, formatting and encryption commands,
//! loop devices and the ordered mount stack.
//!
//! Every operation that touches the system is split in two: the library
//! decides what to run and what an outcome means, the caller runs it.

pub mod args;
pub mod aur;
pub mod constants;
pub mod error;
pub mod fstab;
pub mod initcpio;
pub mod install;
pub mod presets;
pub mod storage;
pub mod text;
pub mod tool;
