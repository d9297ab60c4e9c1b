use alma::storage::{BlockDeviceRef, Filesystem, FilesystemType, MountStack, StorageDevice};

fn drain_all(stack: MountStack, failing: &[&str]) -> (Vec<String>, Result<(), alma::storage::UmountError>, bool) {
    let mut drain = stack.umount();
    let mut attempts = Vec::new();
    while let Some(target) = drain.next_target() {
        let outcome = if failing.contains(&target.as_str()) { Err(16) } else { Ok(()) };
        attempts.push(target);
        drain.report(outcome);
    }
    let done = drain.is_done();
    (attempts, drain.finish(), done)
}

fn mounted(targets: &[&str]) -> MountStack {
    let mut stack = MountStack::new();
    for t in targets {
        let _request = stack.bind_mount("/srv/shared".to_string(), t.to_string(), None);
        assert_eq!(stack.complete(Ok(())), Ok(()));
    }
    stack
}

#[test]
fn drain_unmounts_in_reverse_order() {
    let stack = mounted(&["A", "B", "C"]);
    assert_eq!(stack.len(), 3);
    let (attempts, result, done) = drain_all(stack, &[]);
    assert_eq!(attempts, vec!["C", "B", "A"]);
    assert!(result.is_ok());
    assert!(done);
}

#[test]
fn drain_continues_past_a_failure() {
    let stack = mounted(&["A", "B", "C"]);
    let (attempts, result, done) = drain_all(stack, &["B"]);
    assert_eq!(attempts, vec!["C", "B", "A"]);
    assert!(done);
    let err = result.unwrap_err();
    assert_eq!(err.target, "B");
    assert_eq!(err.errno, 16);
}

#[test]
fn drain_reports_the_last_failure() {
    let stack = mounted(&["A", "B", "C"]);
    let (attempts, result, _) = drain_all(stack, &["C", "A"]);
    assert_eq!(attempts.len(), 3);
    assert_eq!(result.unwrap_err().target, "A");
}

#[test]
fn empty_stack_drains_to_nothing() {
    let (attempts, result, done) = drain_all(MountStack::new(), &[]);
    assert!(attempts.is_empty());
    assert!(result.is_ok());
    assert!(done);
}

#[test]
fn drain_is_a_no_op_once_empty() {
    let mut drain = mounted(&["A"]).umount();
    assert_eq!(drain.next_target().as_deref(), Some("A"));
    drain.report(Ok(()));
    assert_eq!(drain.next_target(), None);
    assert_eq!(drain.next_target(), None);
    drain.report(Err(5));
    assert!(drain.finish().is_ok());
}

#[test]
fn failed_mount_is_not_recorded() {
    let sdb = StorageDevice::from_path("/dev/sdb".to_string(), Some("1\n".to_string()), false, false).unwrap();
    let root = sdb.get_partition(3, true).unwrap();
    let fs = Filesystem::from_partition(BlockDeviceRef::Partition(&root), FilesystemType::Ext4);
    let mut stack = MountStack::new();
    let request = stack.mount(&fs, "/mnt".to_string(), None);
    assert_eq!(request.source, "/dev/sdb3");
    assert_eq!(request.target, "/mnt");
    assert_eq!(request.fstype.as_deref(), Some("ext4"));
    assert!(request.noatime);
    assert!(!request.bind);
    assert_eq!(stack.complete(Err(2)), Err(2));
    assert_eq!(stack.len(), 0);
    let _request = stack.mount(&fs, "/mnt".to_string(), Some("ro".to_string()));
    assert_eq!(stack.complete(Ok(())), Ok(()));
    assert_eq!(stack.len(), 1);
    assert_eq!(stack.complete(Ok(())), Ok(()));
    assert_eq!(stack.len(), 1);
}

#[test]
fn bind_mount_request_has_no_type() {
    let mut stack = MountStack::new();
    let request = stack.bind_mount("/home/me/data".to_string(), "/mnt/shared_dirs/data".to_string(), Some("x".to_string()));
    assert!(request.bind);
    assert!(request.noatime);
    assert_eq!(request.fstype, None);
    assert_eq!(request.options.as_deref(), Some("x"));
    assert_eq!(request.source, "/home/me/data");
}
