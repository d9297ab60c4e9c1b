use super::markers::{BlockDevice, BlockDeviceRef};
use crate::error::ErrorKind;
use crate::text::string_of;
use crate::tool::{views, Invocation, Tool};
use vstd::prelude::*;

verus! {

/// The kinds of filesystem the installer creates.
#[derive(Clone, Copy, Debug, PartialEq, Eq, Structural)]
pub enum FilesystemType {
    Ext4,
    Vfat,
}

/// The name under which the kernel mounts a filesystem kind.
pub open spec fn mount_type_name(t: FilesystemType) -> Seq<char> {
    match t {
        FilesystemType::Ext4 => "ext4"@,
        FilesystemType::Vfat => "vfat"@,
    }
}

/// The format-tool flag for a filesystem kind: forced ext4, 32-bit FAT.
pub open spec fn format_flag(t: FilesystemType) -> Seq<char> {
    match t {
        FilesystemType::Ext4 => "-F"@,
        FilesystemType::Vfat => "-F32"@,
    }
}

impl FilesystemType {
    pub fn to_mount_type(self) -> (r: &'static str)
        ensures
            r@ == mount_type_name(self),
    {
        match self {
            FilesystemType::Ext4 => "ext4",
            FilesystemType::Vfat => "vfat",
        }
    }
}

/// A filesystem of a known kind on a block device. It describes the device;
/// it owns nothing.
#[derive(Debug)]
pub struct Filesystem<'a> {
    fs_type: FilesystemType,
    block: BlockDeviceRef<'a>,
}

impl<'a> Filesystem<'a> {
    pub closed spec fn type_view(&self) -> FilesystemType {
        self.fs_type
    }

    pub closed spec fn block_view(&self) -> BlockDeviceRef<'a> {
        self.block
    }

    /// The run of `mkfs` that formats `block` as `fs_type`.
    pub fn format_invocation(block: BlockDeviceRef<'a>, fs_type: FilesystemType, mkfs: &Tool) -> (r: Invocation)
        ensures
            r.program@ == mkfs.location_view(),
            r.arg_views() == seq![format_flag(fs_type), block.device_path()],
            r.failure == ErrorKind::Formatting,
    {
        let mut args: Vec<String> = Vec::new();
        match fs_type {
            FilesystemType::Ext4 => args.push(string_of("-F")),
            FilesystemType::Vfat => args.push(string_of("-F32")),
        }
        args.push(string_of(block.path()));
        proof {
            assert(views(args@) =~= seq![format_flag(fs_type), block.device_path()]);
        }
        mkfs.invocation(args, ErrorKind::Formatting)
    }

    /// The filesystem that `format_invocation(block, fs_type, _)` made,
    /// given whether that run succeeded.
    pub fn format(block: BlockDeviceRef<'a>, fs_type: FilesystemType, success: bool) -> (r: Result<Filesystem<'a>, ErrorKind>)
        ensures
            success ==> (r matches Ok(f) && f.type_view() == fs_type && f.block_view() == block),
            !success ==> r == Err::<Filesystem<'a>, ErrorKind>(ErrorKind::Formatting),
    {
        if success {
            Ok(Filesystem { fs_type, block })
        } else {
            Err(ErrorKind::Formatting)
        }
    }

    /// An already formatted filesystem; nothing is run.
    pub fn from_partition(block: BlockDeviceRef<'a>, fs_type: FilesystemType) -> (r: Filesystem<'a>)
        ensures
            r.type_view() == fs_type,
            r.block_view() == block,
    {
        Filesystem { fs_type, block }
    }

    pub fn block(&self) -> (r: BlockDeviceRef<'a>)
        ensures
            r == self.block_view(),
    {
        self.block
    }

    pub fn fs_type(&self) -> (r: FilesystemType)
        ensures
            r == self.type_view(),
    {
        self.fs_type
    }
}

} // verus!
