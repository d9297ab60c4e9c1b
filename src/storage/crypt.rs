use super::markers::BlockDevice;
use crate::error::ErrorKind;
use crate::text::string_of;
use crate::tool::{views, Invocation, Tool};
use vstd::prelude::*;

verus! {

/// The LUKS header magic, as written by big-endian LUKS tools.
pub open spec fn luks_magic_1() -> Seq<u8> {
    seq![0x4cu8, 0x55u8, 0x4bu8, 0x53u8, 0xbau8, 0xbeu8]
}

/// The LUKS header magic with its first four bytes swapped.
pub open spec fn luks_magic_2() -> Seq<u8> {
    seq![0x53u8, 0x4bu8, 0x55u8, 0x4cu8, 0xbau8, 0xbeu8]
}

/// Where the mapping `name` appears once it is open.
pub open spec fn mapper_path(name: Seq<char>) -> Seq<char> {
    "/dev/mapper/"@ + name
}

/// An open LUKS mapping over a block device. It remembers the path of the
/// device underneath and the tool that closes it.
#[derive(Debug)]
pub struct EncryptedDevice<'t> {
    cryptsetup: &'t Tool,
    name: String,
    path: String,
    origin: String,
}

impl<'t> EncryptedDevice<'t> {
    /// The mapping's name.
    pub closed spec fn name_view(&self) -> Seq<char> {
        self.name@
    }

    /// The path of the block device underneath the mapping.
    pub closed spec fn origin_view(&self) -> Seq<char> {
        self.origin@
    }

    /// The tool that opened the mapping.
    pub closed spec fn tool_view(&self) -> Tool {
        *self.cryptsetup
    }

    /// The run that formats `device` as a LUKS volume, destroying what it held.
    pub fn prepare<B: BlockDevice>(cryptsetup: &Tool, device: &B) -> (r: Invocation)
        ensures
            r.program@ == cryptsetup.location_view(),
            r.arg_views() == seq!["luksFormat"@, "-q"@, device.device_path()],
            r.failure == ErrorKind::LuksSetup,
    {
        let mut args: Vec<String> = Vec::new();
        args.push(string_of("luksFormat"));
        args.push(string_of("-q"));
        args.push(string_of(device.path()));
        proof {
            assert(views(args@) =~= seq!["luksFormat"@, "-q"@, device.device_path()]);
        }
        cryptsetup.invocation(args, ErrorKind::LuksSetup)
    }

    /// The run that opens the LUKS volume on `device` as the mapping `name`.
    pub fn open_invocation<B: BlockDevice>(cryptsetup: &Tool, device: &B, name: &str) -> (r: Invocation)
        ensures
            r.program@ == cryptsetup.location_view(),
            r.arg_views() == seq!["open"@, device.device_path(), name@],
            r.failure == ErrorKind::LuksOpen,
    {
        let mut args: Vec<String> = Vec::new();
        args.push(string_of("open"));
        args.push(string_of(device.path()));
        args.push(string_of(name));
        proof {
            assert(views(args@) =~= seq!["open"@, device.device_path(), name@]);
        }
        cryptsetup.invocation(args, ErrorKind::LuksOpen)
    }

    /// The mapping `name` over `device`, given whether the run of
    /// `open_invocation(cryptsetup, device, name)` succeeded.
    pub fn open<B: BlockDevice>(
        cryptsetup: &'t Tool,
        device: &B,
        name: String,
        success: bool,
    ) -> (r: Result<EncryptedDevice<'t>, ErrorKind>)
        ensures
            success ==> (r matches Ok(e) && e.name_view() == name@
                && e.device_path() == mapper_path(name@)
                && e.origin_view() == device.device_path()
                && e.tool_view() == *cryptsetup),
            !success ==> r == Err::<EncryptedDevice<'t>, ErrorKind>(ErrorKind::LuksOpen),
    {
        if !success {
            return Err(ErrorKind::LuksOpen);
        }
        let mut path = string_of("/dev/mapper/");
        path.append(name.as_str());
        Ok(EncryptedDevice { cryptsetup, name, path, origin: string_of(device.path()) })
    }

    /// The run that closes this mapping.
    pub fn close(&self) -> (r: Invocation)
        ensures
            r.program@ == self.tool_view().location_view(),
            r.arg_views() == seq!["close"@, self.name_view()],
            r.failure == ErrorKind::LuksClose,
    {
        let mut args: Vec<String> = Vec::new();
        args.push(string_of("close"));
        args.push(string_of(self.name.as_str()));
        proof {
            assert(views(args@) =~= seq!["close"@, self.name_view()]);
        }
        self.cryptsetup.invocation(args, ErrorKind::LuksClose)
    }

    /// The mapping's name.
    pub fn name(&self) -> (r: &str)
        ensures
            r@ == self.name_view(),
    {
        self.name.as_str()
    }

    /// The mapped device node, `/dev/mapper/<name>`.
    pub fn path(&self) -> (r: &str)
        ensures
            r@ == self.device_path(),
    {
        self.path.as_str()
    }
}

impl<'t> BlockDevice for EncryptedDevice<'t> {
    closed spec fn device_path(&self) -> Seq<char> {
        self.path@
    }

    fn path(&self) -> (r: &str) {
        self.path.as_str()
    }
}

/// Whether a device whose first bytes are `header` holds a LUKS volume.
/// Fewer than six bytes cannot be told apart and are an error.
pub fn is_encrypted_device(header: &[u8]) -> (r: Result<bool, ErrorKind>)
    ensures
        header@.len() < 6 ==> r == Err::<bool, ErrorKind>(ErrorKind::LuksDetection),
        header@.len() >= 6 ==> r == Ok::<bool, ErrorKind>(
            header@.subrange(0, 6) == luks_magic_1() || header@.subrange(0, 6) == luks_magic_2()),
{
    if header.len() < 6 {
        return Err(ErrorKind::LuksDetection);
    }
    let tail = header[4] == 0xba && header[5] == 0xbe;
    let first = header[0] == 0x4c && header[1] == 0x55 && header[2] == 0x4b && header[3] == 0x53;
    let second = header[0] == 0x53 && header[1] == 0x4b && header[2] == 0x55 && header[3] == 0x4c;
    let r = tail && (first || second);
    proof {
        let h = header@.subrange(0, 6);
        if h == luks_magic_1() {
            assert(h[0] == 0x4c && h[5] == 0xbe);
        }
        if h == luks_magic_2() {
            assert(h[0] == 0x53 && h[5] == 0xbe);
        }
        if tail && first {
            assert(h =~= luks_magic_1());
        }
        if tail && second {
            assert(h =~= luks_magic_2());
        }
        if h == luks_magic_1() || h == luks_magic_2() {
            assert(h[1] == header@[1] && h[2] == header@[2] && h[3] == header@[3] && h[4] == header@[4]);
        }
    }
    Ok(r)
}

} // verus!
