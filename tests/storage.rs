use alma::error::ErrorKind;
use alma::storage::crypt::is_encrypted_device;
use alma::storage::removeable_devices::{get_storage_devices, trimmed, SysBlockEntry};
use alma::storage::storage_device::{device_name, loop_marker_path, removable_attribute_path, sys_path};
use alma::storage::{BlockDevice, BlockDeviceRef, EncryptedDevice, Filesystem, FilesystemType, LoopDevice, Origin, StorageDevice};
use alma::tool::{Tool, ToolOutput};

fn device(path: &str, removable: Option<&str>, loop_marker: bool, allow: bool) -> Result<StorageDevice, ErrorKind> {
    StorageDevice::from_path(path.to_string(), removable.map(|s| s.to_string()), loop_marker, allow)
}

fn strings(args: &[String]) -> Vec<&str> {
    args.iter().map(|s| s.as_str()).collect()
}

#[test]
fn non_removable_device_is_dangerous() {
    assert_eq!(device("/dev/sda", Some("0\n"), false, false).unwrap_err(), ErrorKind::DangerousDevice);
    assert_eq!(device("/dev/nvme0n1", Some("0\n"), false, false).unwrap_err(), ErrorKind::DangerousDevice);
}

#[test]
fn non_removable_device_allowed_on_request() {
    let d = device("/dev/sda", Some("0\n"), false, true).unwrap();
    assert_eq!(d.name(), "sda");
    assert_eq!(d.path(), "/dev/sda");
}

#[test]
fn removable_device_is_accepted() {
    let d = device("/dev/sdb", Some("1\n"), false, false).unwrap();
    assert_eq!(d.name(), "sdb");
}

#[test]
fn loop_device_is_accepted_though_not_removable() {
    let d = device("/dev/loop0", Some("0\n"), true, false).unwrap();
    assert_eq!(d.name(), "loop0");
    assert_eq!(d.origin(), "loop0");
}

#[test]
fn unreadable_removable_flag_is_a_query_error() {
    assert_eq!(device("/dev/sdc", None, false, false).unwrap_err(), ErrorKind::DeviceQuery);
    assert!(device("/dev/sdc", None, false, true).is_ok());
}

#[test]
fn path_without_name_is_invalid() {
    assert_eq!(device("/", Some("1\n"), false, false).unwrap_err(), ErrorKind::InvalidDeviceName);
    assert_eq!(device("/dev/..", Some("1\n"), false, true).unwrap_err(), ErrorKind::InvalidDeviceName);
}

#[test]
fn device_names_and_sysfs_paths() {
    assert_eq!(device_name("/dev/mmcblk0").as_deref(), Some("mmcblk0"));
    assert_eq!(device_name("sda").as_deref(), Some("sda"));
    assert_eq!(device_name("/dev/"), None);
    assert_eq!(sys_path("sda"), "/sys/block/sda");
    assert_eq!(removable_attribute_path("sda"), "/sys/block/sda/removable");
    assert_eq!(loop_marker_path("loop3"), "/sys/block/loop3/loop");
}

#[test]
fn partition_names_follow_the_device_name() {
    let nvme = device("/dev/nvme0n1", None, false, true).unwrap();
    assert_eq!(nvme.partition_path(1), "/dev/nvme0n1p1");
    let sda = device("/dev/sda", None, false, true).unwrap();
    assert_eq!(sda.partition_path(3), "/dev/sda3");
    assert_eq!(sda.partition_path(12), "/dev/sda12");
    assert_eq!(sda.partition_path(255), "/dev/sda255");
    let lp = device("/dev/loop7", Some("0\n"), true, false).unwrap();
    assert_eq!(lp.partition_path(0), "/dev/loop7p0");
    assert_eq!(lp.partition_path(100), "/dev/loop7p100");
}

#[test]
fn partitions_exist_only_when_present() {
    let lp = device("/dev/loop0", Some("0\n"), true, false).unwrap();
    assert_eq!(lp.get_partition(1, false).unwrap_err(), ErrorKind::NoSuchPartition(1));
    assert_eq!(lp.get_partition(3, false).unwrap_err(), ErrorKind::NoSuchPartition(3));
    let boot = lp.get_partition(1, true).unwrap();
    let root = lp.get_partition(3, true).unwrap();
    assert_eq!(boot.path(), "/dev/loop0p1");
    assert_eq!(root.path(), "/dev/loop0p3");
    assert_eq!(root.origin(), "loop0");
}

#[test]
fn luks_magic_is_recognised() {
    assert_eq!(is_encrypted_device(&[0x4c, 0x55, 0x4b, 0x53, 0xba, 0xbe]), Ok(true));
    assert_eq!(is_encrypted_device(&[0x53, 0x4b, 0x55, 0x4c, 0xba, 0xbe]), Ok(true));
    assert_eq!(is_encrypted_device(&[0x4c, 0x55, 0x4b, 0x53, 0xba, 0xbe, 0x00, 0x01]), Ok(true));
}

#[test]
fn other_headers_are_not_luks() {
    assert_eq!(is_encrypted_device(&[0; 6]), Ok(false));
    assert_eq!(is_encrypted_device(&[0x4c, 0x55, 0x4b, 0x53, 0xba, 0xbf]), Ok(false));
    assert_eq!(is_encrypted_device(&[0x53, 0x4b, 0x55, 0x4c, 0x00, 0xbe]), Ok(false));
    assert_eq!(is_encrypted_device(&[0x4c, 0x55, 0x55, 0x4c, 0xba, 0xbe]), Ok(false));
}

#[test]
fn short_header_is_an_error() {
    assert_eq!(is_encrypted_device(&[0x4c, 0x55, 0x4b, 0x53, 0xba]), Err(ErrorKind::LuksDetection));
    assert_eq!(is_encrypted_device(&[]), Err(ErrorKind::LuksDetection));
}

#[test]
fn encrypted_device_lifecycle_commands() {
    let cryptsetup = Tool::from_location("/usr/bin/cryptsetup".to_string());
    let lp = device("/dev/loop0", Some("0\n"), true, false).unwrap();
    let root = lp.get_partition(3, true).unwrap();
    let prepare = EncryptedDevice::prepare(&cryptsetup, &root);
    assert_eq!(prepare.program, "/usr/bin/cryptsetup");
    assert_eq!(strings(&prepare.args), vec!["luksFormat", "-q", "/dev/loop0p3"]);
    assert_eq!(prepare.outcome(false), Err(ErrorKind::LuksSetup));
    let open = EncryptedDevice::open_invocation(&cryptsetup, &root, "alma_root");
    assert_eq!(strings(&open.args), vec!["open", "/dev/loop0p3", "alma_root"]);
    assert_eq!(open.outcome(true), Ok(()));
    let mapped = EncryptedDevice::open(&cryptsetup, &root, "alma_root".to_string(), true).unwrap();
    assert_eq!(mapped.path(), "/dev/mapper/alma_root");
    assert_eq!(mapped.name(), "alma_root");
    let close = mapped.close();
    assert_eq!(strings(&close.args), vec!["close", "alma_root"]);
    assert_eq!(close.failure, ErrorKind::LuksClose);
}

#[test]
fn failed_open_is_luks_open_error() {
    let cryptsetup = Tool::from_location("cryptsetup".to_string());
    let sdb = device("/dev/sdb", Some("1\n"), false, false).unwrap();
    let part = sdb.get_partition(3, true).unwrap();
    assert_eq!(EncryptedDevice::open(&cryptsetup, &part, "x".to_string(), false).unwrap_err(), ErrorKind::LuksOpen);
}

#[test]
fn format_arguments_depend_on_kind() {
    let mkfs = Tool::from_location("/sbin/mkfs".to_string());
    let sdb = device("/dev/sdb", Some("1\n"), false, false).unwrap();
    let boot = sdb.get_partition(1, true).unwrap();
    let vfat = Filesystem::format_invocation(BlockDeviceRef::Partition(&boot), FilesystemType::Vfat, &mkfs);
    assert_eq!(strings(&vfat.args), vec!["-F32", "/dev/sdb1"]);
    let ext4 = Filesystem::format_invocation(BlockDeviceRef::Partition(&boot), FilesystemType::Ext4, &mkfs);
    assert_eq!(strings(&ext4.args), vec!["-F", "/dev/sdb1"]);
    assert_eq!(ext4.outcome(false), Err(ErrorKind::Formatting));
    let fs = Filesystem::format(BlockDeviceRef::Partition(&boot), FilesystemType::Vfat, true).unwrap();
    assert_eq!(fs.fs_type(), FilesystemType::Vfat);
    assert_eq!(fs.block().path(), "/dev/sdb1");
    assert_eq!(Filesystem::format(BlockDeviceRef::Storage(&sdb), FilesystemType::Ext4, false).unwrap_err(), ErrorKind::Formatting);
    assert_eq!(FilesystemType::Ext4.to_mount_type(), "ext4");
    assert_eq!(FilesystemType::Vfat.to_mount_type(), "vfat");
}

#[test]
fn existing_filesystem_needs_no_run() {
    let sdb = device("/dev/sdb", Some("1\n"), false, false).unwrap();
    let fs = Filesystem::from_partition(BlockDeviceRef::Storage(&sdb), FilesystemType::Ext4);
    assert_eq!(fs.block().path(), "/dev/sdb");
    assert_eq!(fs.fs_type(), FilesystemType::Ext4);
}

fn output(success: bool, stdout: &[u8], stderr: &[u8]) -> Option<ToolOutput> {
    Some(ToolOutput { success, stdout: stdout.to_vec(), stderr: stderr.to_vec() })
}

#[test]
fn loop_device_path_is_read_from_losetup() {
    let losetup = Tool::from_location("/usr/bin/losetup".to_string());
    let run = LoopDevice::create_invocation(&losetup, "/tmp/disk.img");
    assert_eq!(strings(&run.args), vec!["--find", "-P", "--show", "/tmp/disk.img"]);
    let lp = LoopDevice::create(losetup, output(true, b"/dev/loop4\n", b"")).unwrap();
    assert_eq!(lp.path(), "/dev/loop4");
    let detach = lp.detach();
    assert_eq!(detach.program, "/usr/bin/losetup");
    assert_eq!(strings(&detach.args), vec!["-d", "/dev/loop4"]);
}

#[test]
fn loop_device_failures() {
    let losetup = Tool::from_location("losetup".to_string());
    let err = LoopDevice::create(losetup.clone(), output(false, b"", b"losetup: no free loop device")).unwrap_err();
    assert_eq!(err, ErrorKind::Losetup("losetup: no free loop device".to_string()));
    assert_eq!(LoopDevice::create(losetup.clone(), output(true, &[0xff, 0xfe], b"")).unwrap_err(), ErrorKind::Image);
    assert_eq!(LoopDevice::create(losetup.clone(), output(false, b"", &[0xc3])).unwrap_err(), ErrorKind::Image);
    assert_eq!(LoopDevice::create(losetup, None).unwrap_err(), ErrorKind::Image);
}

fn entry(name: &str, removable: Option<&str>, model: Option<&str>, vendor: Option<&str>, size: Option<&str>) -> SysBlockEntry {
    SysBlockEntry {
        name: name.to_string(),
        removable: removable.map(String::from),
        model: model.map(String::from),
        vendor: vendor.map(String::from),
        size: size.map(String::from),
    }
}

#[test]
fn sanity() {
    let entries = vec![entry("sdb", Some("1\n"), Some("DataTraveler\n"), Some("Kingston\n"), Some("4194304\n"))];
    let devices = get_storage_devices(false, &entries).expect("No devices");
    println!("{:?}", devices);
}

#[test]
fn storage_listing_keeps_removable_non_optical_devices() {
    let entries = vec![
        entry("sda", Some("0\n"), Some("Internal SSD\n"), Some("ACME\n"), Some("1000\n")),
        entry("sdb", Some("1\n"), Some("DataTraveler   \n"), Some("Kingston \n"), Some("4194304\n")),
        entry("sr0", Some("1\n"), Some("CD-ROM  \n"), None, None),
    ];
    let devices = get_storage_devices(false, &entries).unwrap();
    assert_eq!(devices.len(), 1);
    assert_eq!(devices[0].name, "sdb");
    assert_eq!(devices[0].size(), 2147483648);
    assert_eq!(devices[0].description(), "Kingston DataTraveler (2.00 GiB)");
    assert_eq!(devices[0].describe_with("2 GiB"), "Kingston DataTraveler (2 GiB)");
    let all = get_storage_devices(true, &entries).unwrap();
    assert_eq!(all.len(), 2);
    assert_eq!(all[0].name, "sda");
    assert_eq!(all[0].description(), "ACME Internal SSD (500.00 KiB)");
}

#[test]
fn storage_listing_errors() {
    let unreadable = vec![entry("sda", None, Some("x"), Some("y"), Some("1"))];
    assert_eq!(get_storage_devices(false, &unreadable).unwrap_err(), ErrorKind::StorageDevicesQuery);
    assert_eq!(get_storage_devices(true, &unreadable).unwrap().len(), 1);
    let bad_size = vec![entry("sdb", Some("1\n"), Some("m"), Some("v"), Some("12a\n"))];
    assert_eq!(get_storage_devices(false, &bad_size).unwrap_err(), ErrorKind::StorageDevicesQuery);
    let huge = vec![entry("sdb", Some("1\n"), Some("m"), Some("v"), Some("340282366920938463463374607431768211455"))];
    assert_eq!(get_storage_devices(false, &huge).unwrap_err(), ErrorKind::StorageDevicesQuery);
    assert!(get_storage_devices(false, &vec![]).unwrap().is_empty());
}

#[test]
fn trimmed_drops_trailing_whitespace_only() {
    assert_eq!(trimmed("  Kingston \t\n".to_string()), "  Kingston");
    assert_eq!(trimmed("".to_string()), "");
}
