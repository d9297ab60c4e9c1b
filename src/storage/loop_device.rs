use crate::error::ErrorKind;
use crate::text::{decode_utf8_bytes, string_of, trim, trim_str, utf8_text};
use crate::tool::{views, Invocation, Tool, ToolOutput};
use vstd::prelude::*;

verus! {

/// A regular file attached as a block device.
#[derive(Debug)]
pub struct LoopDevice {
    path: String,
    losetup: Tool,
}

impl LoopDevice {
    pub closed spec fn path_view(&self) -> Seq<char> {
        self.path@
    }

    pub closed spec fn tool_view(&self) -> Tool {
        self.losetup
    }

    /// The run of `losetup` that attaches `file` to the first free loop
    /// device, scans its partitions and prints the device's path.
    pub fn create_invocation(losetup: &Tool, file: &str) -> (r: Invocation)
        ensures
            r.program@ == losetup.location_view(),
            r.arg_views() == seq!["--find"@, "-P"@, "--show"@, file@],
            r.failure == ErrorKind::Image,
    {
        let mut args: Vec<String> = Vec::new();
        args.push(string_of("--find"));
        args.push(string_of("-P"));
        args.push(string_of("--show"));
        args.push(string_of(file));
        proof {
            assert(views(args@) =~= seq!["--find"@, "-P"@, "--show"@, file@]);
        }
        losetup.invocation(args, ErrorKind::Image)
    }

    /// The loop device that the run of `create_invocation` attached, read
    /// from what the run printed (`None`: it could not be run).
    pub fn create(losetup: Tool, output: Option<ToolOutput>) -> (r: Result<LoopDevice, ErrorKind>)
        ensures
            output is None ==> r == Err::<LoopDevice, ErrorKind>(ErrorKind::Image),
            output matches Some(o) ==> !o.success ==> match utf8_text(o.stderr@) {
                Some(message) => r matches Err(ErrorKind::Losetup(m)) && m@ == message,
                None => r == Err::<LoopDevice, ErrorKind>(ErrorKind::Image),
            },
            output matches Some(o) ==> o.success ==> match utf8_text(o.stdout@) {
                Some(printed) => r matches Ok(d) && d.path_view() == trim(printed) && d.tool_view() == losetup,
                None => r == Err::<LoopDevice, ErrorKind>(ErrorKind::Image),
            },
    {
        let output = match output {
            Some(o) => o,
            None => return Err(ErrorKind::Image),
        };
        if !output.success {
            return match decode_utf8_bytes(output.stderr) {
                Some(text) => Err(ErrorKind::Losetup(text)),
                None => Err(ErrorKind::Image),
            };
        }
        match decode_utf8_bytes(output.stdout) {
            Some(text) => {
                let path = string_of(trim_str(text.as_str()));
                Ok(LoopDevice { path, losetup })
            },
            None => Err(ErrorKind::Image),
        }
    }

    /// The loop device's node, e.g. `/dev/loop0`.
    pub fn path(&self) -> (r: &str)
        ensures
            r@ == self.path_view(),
    {
        self.path.as_str()
    }

    /// The run of `losetup` that detaches this loop device.
    pub fn detach(&self) -> (r: Invocation)
        ensures
            r.program@ == self.tool_view().location_view(),
            r.arg_views() == seq!["-d"@, self.path_view()],
            r.failure == ErrorKind::Image,
    {
        let mut args: Vec<String> = Vec::new();
        args.push(string_of("-d"));
        args.push(string_of(self.path.as_str()));
        proof {
            assert(views(args@) =~= seq!["-d"@, self.path_view()]);
        }
        self.losetup.invocation(args, ErrorKind::Image)
    }
}

} // verus!
