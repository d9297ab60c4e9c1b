use super::crypt::EncryptedDevice;
use super::partition::Partition;
use super::storage_device::StorageDevice;
use vstd::prelude::*;

verus! {

/// Anything that is a block device node: it has a path.
pub trait BlockDevice {
    /// The device node's path.
    spec fn device_path(&self) -> Seq<char>;

    fn path(&self) -> (r: &str)
        ensures
            r@ == self.device_path(),
    ;
}

/// A device that others are derived from; it is known by its name.
pub trait Origin {
    /// The name that derived devices refer back to.
    spec fn origin_name(&self) -> Seq<char>;

    fn origin(&self) -> (r: &str)
        ensures
            r@ == self.origin_name(),
    ;
}

/// One of the block devices a filesystem can live on.
#[derive(Clone, Copy, Debug)]
pub enum BlockDeviceRef<'a> {
    Storage(&'a StorageDevice),
    Partition(&'a Partition),
    Encrypted(&'a EncryptedDevice<'a>),
}

impl<'a> BlockDevice for BlockDeviceRef<'a> {
    open spec fn device_path(&self) -> Seq<char> {
        match *self {
            BlockDeviceRef::Storage(d) => d.device_path(),
            BlockDeviceRef::Partition(p) => p.device_path(),
            BlockDeviceRef::Encrypted(e) => e.device_path(),
        }
    }

    fn path(&self) -> (r: &str) {
        match *self {
            BlockDeviceRef::Storage(d) => d.path(),
            BlockDeviceRef::Partition(p) => p.path(),
            BlockDeviceRef::Encrypted(e) => e.path(),
        }
    }
}

} // verus!
