use super::markers::{BlockDevice, Origin};
use vstd::prelude::*;

verus! {

/// A partition of a storage device. It records the name of the device it
/// was derived from, so that it is never taken for a partition of another.
#[derive(Debug)]
pub struct Partition {
    path: String,
    origin: String,
}

impl Partition {
    /// The device that this partition was derived from.
    pub closed spec fn origin_name(&self) -> Seq<char> {
        self.origin@
    }

    /// The partition at `path` of `origin`.
    pub fn new<T: Origin>(origin: &T, path: String) -> (r: Partition)
        ensures
            r.device_path() == path@,
            r.origin_name() == origin.origin_name(),
    {
        Partition { path, origin: crate::text::string_of(origin.origin()) }
    }

    /// The name of the device that this partition was derived from.
    pub fn origin(&self) -> (r: &str)
        ensures
            r@ == self.origin_name(),
    {
        self.origin.as_str()
    }
}

impl BlockDevice for Partition {
    closed spec fn device_path(&self) -> Seq<char> {
        self.path@
    }

    fn path(&self) -> (r: &str) {
        self.path.as_str()
    }
}

} // verus!
