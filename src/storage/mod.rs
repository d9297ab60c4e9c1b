//! Block devices, partitions, loop devices, encrypted volumes, filesystems
//! and the mount stack.
pub mod crypt;
pub mod filesystem;
pub mod loop_device;
pub mod markers;
pub mod mount_stack;
pub mod partition;
pub mod removeable_devices;
pub mod storage_device;

pub use crypt::{is_encrypted_device, EncryptedDevice};
pub use filesystem::{Filesystem, FilesystemType};
pub use loop_device::LoopDevice;
pub use markers::{BlockDevice, BlockDeviceRef, Origin};
pub use mount_stack::{Drain, MountRequest, MountStack, UmountError};
pub use partition::Partition;
pub use removeable_devices::{get_storage_devices, Device, SysBlockEntry};
pub use storage_device::StorageDevice;
