use vstd::prelude::*;

verus! {

/// What went wrong, by kind.
#[derive(Clone, Debug, PartialEq, Eq)]
pub enum ErrorKind {
    DeviceQuery,
    InvalidDeviceName,
    DangerousDevice,
    NoSuchPartition(u8),
    NoTool(String),
    TmpDirError,
    Partitioning,
    Formatting,
    Mounting,
    CreateBoot,
    Pacstrap,
    Fstab,
    PostInstallation,
    Initramfs,
    Bootloader,
    Interactive,
    UmountFailure,
    LuksSetup,
    LuksOpen,
    LuksClose,
    LuksDetection,
    Locale,
    Qemu,
    Preset(String),
    MissingEnvironmentVariables(Vec<String>),
    PresetScript,
    AurHelper,
    Image,
    Losetup(String),
    StorageDevicesQuery,
    NoRemovableDevices,
}

} // verus!
