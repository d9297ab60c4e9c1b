use super::{views, Invocation, Tool};
use crate::args::QemuCommand;
use crate::error::ErrorKind;
use crate::text::string_of;
use vstd::prelude::*;

verus! {

/// The machine every drive boots in: memory, user networking, a USB tablet.
pub open spec fn machine_args() -> Seq<Seq<char>> {
    seq!["-m"@, "4G"@, "-netdev"@, "user,id=user.0"@, "-device"@, "virtio-net-pci,netdev=user.0"@, "-device"@,
        "qemu-xhci,id=xhci"@, "-device"@, "usb-tablet,bus=xhci.0"@, "-drive"@]
}

/// The drive specification for a raw block device.
pub open spec fn drive_arg(block_device: Seq<char>) -> Seq<char> {
    "file="@ + block_device + ",if=virtio,format=raw"@
}

/// Hardware acceleration, where `/dev/kvm` exists.
pub open spec fn kvm_args(kvm: bool) -> Seq<Seq<char>> {
    if kvm { seq!["-enable-kvm"@, "-cpu"@, "host"@] } else { Seq::empty() }
}

/// The run of qemu that boots `command.block_device`, passing on
/// `command.args`; `kvm` says whether `/dev/kvm` exists.
pub fn qemu(emulator: &Tool, command: QemuCommand, kvm: bool) -> (r: Invocation)
    ensures
        r.program@ == emulator.location_view(),
        r.arg_views() == machine_args() + seq![drive_arg(command.block_device@)] + views(command.args@)
            + kvm_args(kvm),
        r.failure == ErrorKind::Qemu,
{
    let mut args: Vec<String> = Vec::new();
    args.push(string_of("-m"));
    args.push(string_of("4G"));
    args.push(string_of("-netdev"));
    args.push(string_of("user,id=user.0"));
    args.push(string_of("-device"));
    args.push(string_of("virtio-net-pci,netdev=user.0"));
    args.push(string_of("-device"));
    args.push(string_of("qemu-xhci,id=xhci"));
    args.push(string_of("-device"));
    args.push(string_of("usb-tablet,bus=xhci.0"));
    args.push(string_of("-drive"));
    let mut drive = string_of("file=");
    drive.append(command.block_device.as_str());
    drive.append(",if=virtio,format=raw");
    args.push(drive);
    let ghost before = args@;
    let mut extra = command.args;
    args.append(&mut extra);
    if kvm {
        args.push(string_of("-enable-kvm"));
        args.push(string_of("-cpu"));
        args.push(string_of("host"));
    }
    proof {
        assert(views(args@) =~= machine_args() + seq![drive_arg(command.block_device@)] + views(command.args@)
            + kvm_args(kvm));
    }
    emulator.invocation(args, ErrorKind::Qemu)
}

} // verus!
