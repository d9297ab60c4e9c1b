use crate::error::ErrorKind;
use crate::text::{is_ascii_digit, same_text, string_of, trim, trim_end, trim_end_str, trim_str};
use vstd::prelude::*;

verus! {

/// What `/sys/block/<name>` says of one block device: each attribute's
/// contents, or `None` where it could not be read.
#[derive(Debug)]
pub struct SysBlockEntry {
    pub name: String,
    pub removable: Option<String>,
    pub model: Option<String>,
    pub vendor: Option<String>,
    pub size: Option<String>,
}

/// A block device offered for installation.
#[derive(Debug)]
pub struct Device {
    model: String,
    vendor: String,
    size: u128,
    pub name: String,
}

/// A device's name, model, vendor and size in bytes.
pub struct DeviceView {
    pub name: Seq<char>,
    pub model: Seq<char>,
    pub vendor: Seq<char>,
    pub size: u128,
}

/// The value of a sequence of decimal digits.
pub open spec fn digits_value(s: Seq<char>) -> nat
    decreases s.len(),
{
    if s.len() == 0 {
        0
    } else {
        digits_value(s.drop_last()) * 10 + ((s.last() as u32) - ('0' as u32)) as nat
    }
}

/// The unsigned integer that `s` writes in decimal: an optional `+`, then
/// one or more digits, with a value that fits in 128 bits.
pub open spec fn decimal_u128(s: Seq<char>) -> Option<u128> {
    let digits = if s.len() > 0 && s[0] == '+' { s.drop_first() } else { s };
    if digits.len() > 0 && (forall|i: int| 0 <= i < digits.len() ==> is_ascii_digit(#[trigger] digits[i]))
        && digits_value(digits) <= u128::MAX {
        Some(digits_value(digits) as u128)
    } else {
        None
    }
}

/// The sector count that sysfs reports, in bytes (512 per sector).
pub open spec fn size_in_bytes(size: Seq<char>) -> Option<u128> {
    match decimal_u128(trim(size)) {
        Some(sectors) => if sectors * 512 <= u128::MAX { Some((sectors * 512) as u128) } else { None },
        None => None,
    }
}

/// The contents of a `removable` attribute that mark removable media.
pub open spec fn removable_mark() -> Seq<char> {
    seq!['1', '\n']
}

/// Whether a device of this (trimmed) model is an optical drive, never offered.
pub open spec fn is_cd_rom(model: Seq<char>) -> bool {
    model == "CD-ROM"@
}

/// What the listing makes of one entry: an error, nothing (the device is
/// not offered) or the device.
pub open spec fn entry_outcome(allow_non_removable: bool, e: SysBlockEntry) -> Result<Option<DeviceView>, ErrorKind> {
    if !allow_non_removable && e.removable is None {
        Err(ErrorKind::StorageDevicesQuery)
    } else if !allow_non_removable && e.removable.unwrap()@ != removable_mark() {
        Ok(None)
    } else if e.model is None {
        Err(ErrorKind::StorageDevicesQuery)
    } else if is_cd_rom(trim_end(e.model.unwrap()@)) {
        Ok(None)
    } else if e.vendor is None || e.size is None || size_in_bytes(e.size.unwrap()@) is None {
        Err(ErrorKind::StorageDevicesQuery)
    } else {
        Ok(Some(DeviceView {
            name: e.name@,
            model: trim_end(e.model.unwrap()@),
            vendor: trim_end(e.vendor.unwrap()@),
            size: size_in_bytes(e.size.unwrap()@).unwrap(),
        }))
    }
}

/// The devices offered from `entries`, in order, or the first error.
pub open spec fn listing(allow_non_removable: bool, entries: Seq<SysBlockEntry>) -> Result<Seq<DeviceView>, ErrorKind>
    decreases entries.len(),
{
    if entries.len() == 0 {
        Ok(Seq::empty())
    } else {
        match listing(allow_non_removable, entries.drop_last()) {
            Err(e) => Err(e),
            Ok(devices) => match entry_outcome(allow_non_removable, entries.last()) {
                Err(e) => Err(e),
                Ok(None) => Ok(devices),
                Ok(Some(d)) => Ok(devices.push(d)),
            },
        }
    }
}

/// Relies on `str::parse::<u128>`: an optional `+` and decimal digits whose
/// value fits; anything else is refused.
#[verifier::external_body]
fn parse_u128(s: &str) -> (r: Option<u128>)
    ensures
        r == decimal_u128(s@),
{
    s.parse::<u128>().ok()
}

/// The size text that byte_unit gives a byte count in binary units.
pub uninterp spec fn binary_size_text(bytes: u128) -> Seq<char>;

/// Relies on byte_unit's `Byte::get_appropriate_unit(true)` and its
/// `Display`: the count in the largest binary unit it exceeds, as text
/// (`48.48 MiB`).
#[verifier::external_body]
fn size_text(bytes: u128) -> (r: String)
    ensures
        r@ == binary_size_text(bytes),
{
    byte_unit::Byte::from_bytes(bytes).get_appropriate_unit(true).to_string()
}

/// `source` without trailing whitespace.
pub fn trimmed(source: String) -> (r: String)
    ensures
        r@ == trim_end(source@),
{
    string_of(trim_end_str(source.as_str()))
}

impl Device {
    pub closed spec fn view_of(&self) -> DeviceView {
        DeviceView { name: self.name@, model: self.model@, vendor: self.vendor@, size: self.size }
    }

    /// The device's size in bytes.
    pub fn size(&self) -> (r: u128)
        ensures
            r == self.view_of().size,
    {
        self.size
    }

    /// `<vendor> <model> (<size>)`, with the size already written out.
    pub fn describe_with(&self, size: &str) -> (r: String)
        ensures
            r@ == self.view_of().vendor + " "@ + self.view_of().model + " ("@ + size@ + ")"@,
    {
        let mut text = string_of(self.vendor.as_str());
        text.append(" ");
        text.append(self.model.as_str());
        text.append(" (");
        text.append(size);
        text.append(")");
        text
    }

    /// `<vendor> <model> (<size>)`, the size in binary units.
    pub fn description(&self) -> (r: String)
        ensures
            r@ == self.view_of().vendor + " "@ + self.view_of().model + " ("@ + binary_size_text(self.view_of().size)
                + ")"@,
    {
        let size = size_text(self.size);
        self.describe_with(size.as_str())
    }
}

/// The device that one entry stands for, if it is offered.
fn list_entry(allow_non_removable: bool, e: &SysBlockEntry) -> (r: Result<Option<Device>, ErrorKind>)
    ensures
        match entry_outcome(allow_non_removable, *e) {
            Err(k) => r == Err::<Option<Device>, ErrorKind>(k),
            Ok(None) => r matches Ok(None),
            Ok(Some(v)) => r matches Ok(Some(d)) && d.view_of() == v,
        },
{
    if !allow_non_removable {
        match &e.removable {
            None => return Err(ErrorKind::StorageDevicesQuery),
            Some(flag) => {
                proof {
                    reveal_strlit("1\n");
                    assert("1\n"@ =~= removable_mark());
                }
                if !same_text(flag.as_str(), "1\n") {
                    return Ok(None);
                }
            },
        }
    }
    let model = match &e.model {
        None => return Err(ErrorKind::StorageDevicesQuery),
        Some(m) => trimmed(m.clone()),
    };
    if same_text(model.as_str(), "CD-ROM") {
        return Ok(None);
    }
    let vendor = match &e.vendor {
        None => return Err(ErrorKind::StorageDevicesQuery),
        Some(v) => trimmed(v.clone()),
    };
    let sectors = match &e.size {
        None => return Err(ErrorKind::StorageDevicesQuery),
        Some(s) => parse_u128(trim_str(s.as_str())),
    };
    let size = match sectors {
        None => return Err(ErrorKind::StorageDevicesQuery),
        Some(n) => match n.checked_mul(512) {
            None => return Err(ErrorKind::StorageDevicesQuery),
            Some(bytes) => bytes,
        },
    };
    Ok(Some(Device { model, vendor, size, name: e.name.clone() }))
}

/// The block devices offered for installation, from the entries of
/// `/sys/block` in the order given. Unless `allow_non_removable` is set,
/// only removable devices are offered; optical drives never are.
pub fn get_storage_devices(allow_non_removable: bool, entries: &Vec<SysBlockEntry>) -> (r: Result<Vec<Device>, ErrorKind>)
    ensures
        match listing(allow_non_removable, entries@) {
            Err(k) => r == Err::<Vec<Device>, ErrorKind>(k),
            Ok(vs) => r matches Ok(ds) && ds@.len() == vs.len()
                && forall|i: int| 0 <= i < vs.len() ==> #[trigger] ds@[i].view_of() == vs[i],
        },
{
    let mut result: Vec<Device> = Vec::new();
    let mut i: usize = 0;
    while i < entries.len()
        invariant
            0 <= i <= entries@.len(),
            listing(allow_non_removable, entries@.subrange(0, i as int)) matches Ok(vs)
                && result@.len() == vs.len()
                && forall|j: int| 0 <= j < vs.len() ==> #[trigger] result@[j].view_of() == vs[j],
        decreases entries@.len() - i,
    {
        let ghost prefix = entries@.subrange(0, i as int);
        let ghost next = entries@.subrange(0, i as int + 1);
        proof {
            assert(next.drop_last() =~= prefix);
            assert(next.last() == entries@[i as int]);
        }
        match list_entry(allow_non_removable, &entries[i]) {
            Err(k) => {
                proof {
                    lemma_listing_stops(allow_non_removable, entries@, i as int + 1);
                }
                return Err(k);
            },
            Ok(None) => {},
            Ok(Some(d)) => {
                result.push(d);
            },
        }
        i += 1;
    }
    proof {
        assert(entries@.subrange(0, entries@.len() as int) =~= entries@);
    }
    Ok(result)
}

/// Once an entry fails, the listing of any longer prefix fails the same way.
proof fn lemma_listing_stops(allow_non_removable: bool, entries: Seq<SysBlockEntry>, k: int)
    requires
        0 < k <= entries.len(),
        listing(allow_non_removable, entries.subrange(0, k)) is Err,
    ensures
        listing(allow_non_removable, entries) == listing(allow_non_removable, entries.subrange(0, k)),
    decreases entries.len() - k,
{
    if k < entries.len() {
        let next = entries.subrange(0, k + 1);
        assert(next.drop_last() =~= entries.subrange(0, k));
        lemma_listing_stops(allow_non_removable, entries, k + 1);
    } else {
        assert(entries.subrange(0, k) =~= entries);
    }
}

} // verus!
