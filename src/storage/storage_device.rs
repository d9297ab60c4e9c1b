use super::markers::{BlockDevice, Origin};
use super::partition::Partition;
use crate::error::ErrorKind;
use crate::text::{decimal, opt_view, ends_with_digit, is_ascii_digit, push_decimal, same_text, string_of};
use vstd::prelude::*;

verus! {

/// The last segment of a path: what follows its last `/`.
pub open spec fn last_segment(path: Seq<char>) -> Seq<char>
    decreases path.len(),
{
    if path.len() == 0 || path.last() == '/' {
        Seq::empty()
    } else {
        last_segment(path.drop_last()).push(path.last())
    }
}

/// The device name of a canonical device path: its last segment, unless
/// that is empty or a `.` / `..` segment.
pub open spec fn device_name_of(path: Seq<char>) -> Option<Seq<char>> {
    let name = last_segment(path);
    if name.len() == 0 || name == seq!['.'] || name == seq!['.', '.'] {
        None
    } else {
        Some(name)
    }
}

/// Contents of a sysfs `removable` attribute that mark removable media.
pub open spec fn removable_flag() -> Seq<char> {
    seq!['1', '\n']
}

/// The sysfs directory of the block device `name`.
pub open spec fn sys_path_of(name: Seq<char>) -> Seq<char> {
    "/sys/block/"@ + name
}

/// The name of partition `index` of the device `name`: devices whose name
/// ends in a digit (`nvme0n1`) put a `p` before the index, others (`sda`)
/// do not.
pub open spec fn partition_name(name: Seq<char>, index: u8) -> Seq<char> {
    if name.len() > 0 && is_ascii_digit(name.last()) {
        name.push('p') + decimal(index as nat)
    } else {
        name + decimal(index as nat)
    }
}

/// The device node of partition `index` of the device `name`.
pub open spec fn partition_path(name: Seq<char>, index: u8) -> Seq<char> {
    "/dev/"@ + partition_name(name, index)
}

/// The outcome of classifying the device at the canonical path `path`,
/// given the contents of its `removable` attribute (`None`: unreadable) and
/// whether its loop marker exists.
pub open spec fn classification(
    path: Seq<char>,
    removable: Option<Seq<char>>,
    loop_marker: bool,
    allow_non_removable: bool,
) -> Result<Seq<char>, ErrorKind> {
    match device_name_of(path) {
        None => Err(ErrorKind::InvalidDeviceName),
        Some(name) => {
            if allow_non_removable {
                Ok(name)
            } else {
                match removable {
                    None => Err(ErrorKind::DeviceQuery),
                    Some(flag) => {
                        if flag == removable_flag() || loop_marker {
                            Ok(name)
                        } else {
                            Err(ErrorKind::DangerousDevice)
                        }
                    }
                }
            }
        }
    }
}

/// The safety gate: a device that is neither marked removable nor a loop
/// device is refused as dangerous unless non-removable devices are allowed.
pub proof fn lemma_non_removable_is_dangerous(path: Seq<char>, removable: Seq<char>)
    requires
        device_name_of(path) is Some,
        removable != removable_flag(),
    ensures
        classification(path, Some(removable), false, false) == Err::<Seq<char>, ErrorKind>(ErrorKind::DangerousDevice),
        classification(path, Some(removable), false, true) == Ok::<Seq<char>, ErrorKind>(device_name_of(path).unwrap()),
{
}

/// Partition naming: after a name that ends in a digit (`nvme0n1`) comes
/// `p` and the index (`nvme0n1p1`); after any other name (`sda`) the index
/// alone (`sda1`).
pub proof fn lemma_partition_naming(name: Seq<char>, index: u8)
    requires
        name.len() > 0,
    ensures
        is_ascii_digit(name.last()) ==> partition_path(name, index) == "/dev/"@ + name + seq!['p'] + decimal(index as nat),
        !is_ascii_digit(name.last()) ==> partition_path(name, index) == "/dev/"@ + name + decimal(index as nat),
{
    assert(name.push('p') =~= name + seq!['p']);
    assert("/dev/"@ + (name + seq!['p'] + decimal(index as nat)) =~= "/dev/"@ + name + seq!['p'] + decimal(index as nat));
    assert("/dev/"@ + (name + decimal(index as nat)) =~= "/dev/"@ + name + decimal(index as nat));
}

proof fn lemma_last_segment_split(path: Seq<char>, j: int)
    requires
        0 <= j <= path.len(),
        forall|k: int| j <= k < path.len() ==> path[k] != '/',
    ensures
        last_segment(path) == last_segment(path.subrange(0, j)) + path.subrange(j, path.len() as int),
    decreases path.len() - j,
{
    if j < path.len() {
        lemma_last_segment_split(path, j + 1);
        let pre = path.subrange(0, j + 1);
        assert(pre.drop_last() =~= path.subrange(0, j));
        assert(last_segment(pre) == last_segment(path.subrange(0, j)).push(path[j]));
        assert(path.subrange(j, path.len() as int) =~= seq![path[j]] + path.subrange(j + 1, path.len() as int));
        assert(last_segment(path.subrange(0, j)).push(path[j]) + path.subrange(j + 1, path.len() as int)
            =~= last_segment(path.subrange(0, j)) + path.subrange(j, path.len() as int));
    } else {
        assert(path.subrange(0, j) =~= path);
        assert(path.subrange(j, path.len() as int) =~= Seq::<char>::empty());
    }
}

/// The device name of the canonical device path `path`.
pub fn device_name(path: &str) -> (r: Option<String>)
    ensures
        r matches Some(n) ==> device_name_of(path@) == Some(n@),
        r is None ==> device_name_of(path@) is None,
{
    let n = path.unicode_len();
    let mut j: usize = n;
    while j > 0 && path.get_char(j - 1) != '/'
        invariant
            n == path@.len(),
            0 <= j <= n,
            forall|k: int| j <= k < n ==> path@[k] != '/',
        decreases j,
    {
        j -= 1;
    }
    proof {
        lemma_last_segment_split(path@, j as int);
        if j > 0 {
            assert(path@.subrange(0, j as int).last() == '/');
        }
        assert(last_segment(path@.subrange(0, j as int)) =~= Seq::<char>::empty());
        assert(last_segment(path@) =~= path@.subrange(j as int, n as int));
    }
    let name = path.substring_char(j, n);
    if name.unicode_len() == 0 || same_text(name, ".") || same_text(name, "..") {
        proof {
            reveal_strlit(".");
            reveal_strlit("..");
            assert("."@ =~= seq!['.']);
            assert(".."@ =~= seq!['.', '.']);
        }
        None
    } else {
        proof {
            reveal_strlit(".");
            reveal_strlit("..");
            assert(name@ != seq!['.']) by {
                if name@ == seq!['.'] {
                    assert(name@ =~= "."@);
                }
            }
            assert(name@ != seq!['.', '.']) by {
                if name@ == seq!['.', '.'] {
                    assert(name@ =~= ".."@);
                }
            }
        }
        Some(string_of(name))
    }
}

/// The sysfs directory of the block device `name`.
pub fn sys_path(name: &str) -> (r: String)
    ensures
        r@ == sys_path_of(name@),
{
    let mut path = string_of("/sys/block/");
    path.append(name);
    path
}

/// The sysfs attribute whose contents say whether `name` is removable.
pub fn removable_attribute_path(name: &str) -> (r: String)
    ensures
        r@ == sys_path_of(name@) + "/removable"@,
{
    let mut path = sys_path(name);
    path.append("/removable");
    path
}

/// The sysfs entry that exists exactly when `name` is a loop device.
pub fn loop_marker_path(name: &str) -> (r: String)
    ensures
        r@ == sys_path_of(name@) + "/loop"@,
{
    let mut path = sys_path(name);
    path.append("/loop");
    path
}

/// A whole block device that passed the safety check (or whose caller
/// waived it).
#[derive(Debug)]
pub struct StorageDevice {
    name: String,
    path: String,
}

impl StorageDevice {
    #[verifier::type_invariant]
    spec fn inv(&self) -> bool {
        self.name@.len() > 0
    }

    /// The device's name, e.g. `sda` or `loop0`.
    pub closed spec fn name_view(&self) -> Seq<char> {
        self.name@
    }

    /// Classifies the device at the canonical path `path`.
    ///
    /// `removable` holds the contents of the device's sysfs `removable`
    /// attribute, or `None` where it could not be read; `loop_marker` says
    /// whether the loop marker of the device exists. Unless
    /// `allow_non_removable` is set, a device that is neither removable nor
    /// a loop device is refused as dangerous.
    pub fn from_path(
        path: String,
        removable: Option<String>,
        loop_marker: bool,
        allow_non_removable: bool,
    ) -> (r: Result<StorageDevice, ErrorKind>)
        ensures
            r matches Ok(d) ==> classification(path@, opt_view(removable), loop_marker, allow_non_removable)
                == Ok::<Seq<char>, ErrorKind>(d.name_view()) && d.device_path() == path@,
            r matches Err(e) ==> classification(path@, opt_view(removable), loop_marker, allow_non_removable)
                == Err::<Seq<char>, ErrorKind>(e),
    {
        let name = match device_name(path.as_str()) {
            Some(name) => name,
            None => return Err(ErrorKind::InvalidDeviceName),
        };
        if !allow_non_removable {
            let removable_media = match &removable {
                Some(flag) => {
                    proof {
                        reveal_strlit("1\n");
                        assert("1\n"@ =~= removable_flag());
                    }
                    same_text(flag.as_str(), "1\n")
                },
                None => return Err(ErrorKind::DeviceQuery),
            };
            if !(removable_media || loop_marker) {
                return Err(ErrorKind::DangerousDevice);
            }
        }
        Ok(StorageDevice { name, path })
    }

    /// The device's name.
    pub fn name(&self) -> (r: &str)
        ensures
            r@ == self.name_view(),
    {
        self.name.as_str()
    }

    /// The device node of partition `index`.
    pub fn partition_path(&self, index: u8) -> (r: String)
        ensures
            r@ == partition_path(self.name_view(), index),
    {
        proof {
            use_type_invariant(self);
        }
        let mut path = string_of("/dev/");
        path.append(self.name.as_str());
        if ends_with_digit(self.name.as_str()) {
            crate::text::push_char(&mut path, 'p');
        }
        push_decimal(&mut path, index);
        proof {
            assert(path@ =~= partition_path(self.name_view(), index));
        }
        path
    }

    /// Partition `index` of this device; `present` says whether its device
    /// node (at `partition_path(index)`) exists.
    pub fn get_partition(&self, index: u8, present: bool) -> (r: Result<Partition, ErrorKind>)
        ensures
            present ==> (r matches Ok(p) && p.device_path() == partition_path(self.name_view(), index)
                && p.origin_name() == self.name_view()),
            !present ==> r == Err::<Partition, ErrorKind>(ErrorKind::NoSuchPartition(index)),
    {
        if !present {
            return Err(ErrorKind::NoSuchPartition(index));
        }
        let path = self.partition_path(index);
        Ok(Partition::new(self, path))
    }
}

impl BlockDevice for StorageDevice {
    closed spec fn device_path(&self) -> Seq<char> {
        self.path@
    }

    fn path(&self) -> (r: &str) {
        self.path.as_str()
    }
}

impl Origin for StorageDevice {
    closed spec fn origin_name(&self) -> Seq<char> {
        self.name@
    }

    fn origin(&self) -> (r: &str) {
        self.name.as_str()
    }
}

} // verus!
