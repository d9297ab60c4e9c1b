//! What the command line asks for, as plain values.
use vstd::prelude::*;

verus! {

/// Open a shell (or run a command) inside an installed drive.
#[derive(Debug)]
pub struct ChrootCommand {
    pub block_device: String,
    pub allow_non_removable: bool,
    pub command: Vec<String>,
}

/// Boot an installed drive in a virtual machine.
#[derive(Debug)]
pub struct QemuCommand {
    pub block_device: String,
    pub args: Vec<String>,
}

/// The byte count that byte_unit reads from a size such as `10GiB`.
pub uninterp spec fn parsed_byte_count(s: Seq<char>) -> Option<u128>;

/// Relies on byte_unit's `Byte::from_str`: a number with an optional
/// decimal or binary unit, read as a byte count.
#[verifier::external_body]
fn byte_count(s: &str) -> (r: Option<u128>)
    ensures
        r == parsed_byte_count(s@),
{
    match byte_unit::Byte::from_str(s) {
        Ok(b) => Some(b.get_bytes()),
        Err(_) => None,
    }
}

/// An image size given on the command line, in bytes.
pub fn parse_bytes(src: &str) -> (r: Result<u128, &'static str>)
    ensures
        parsed_byte_count(src@) matches Some(n) ==> r == Ok::<u128, &'static str>(n),
        parsed_byte_count(src@) is None ==> (r matches Err(m) && m@ == "Invalid image size"@),
{
    match byte_count(src) {
        Some(n) => Ok(n),
        None => Err("Invalid image size"),
    }
}

} // verus!
