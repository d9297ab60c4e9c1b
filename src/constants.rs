//! Fixed facts of the installed system's layout and contents.
use vstd::prelude::*;

verus! {

/// The EFI system partition.
pub const BOOT_PARTITION_INDEX: u8 = 1;

/// The root partition, after the BIOS boot partition.
pub const ROOT_PARTITION_INDEX: u8 = 3;

/// journald keeps its logs in memory and little of them.
pub const JOURNALD_CONF: &'static str = "
[Journal]
Storage=volatile
SystemMaxUse=16M
";

} // verus!
