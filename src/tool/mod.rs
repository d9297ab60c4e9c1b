//! External programs: where one was found, and what to run.
pub mod qemu;

use crate::error::ErrorKind;
use vstd::prelude::*;

verus! {

/// An external program, located by its caller on the search path.
#[derive(Clone, Debug)]
pub struct Tool {
    location: String,
}

/// One run of an external program: what to run, with which arguments, and
/// which error a failed run stands for.
#[derive(Debug)]
pub struct Invocation {
    pub program: String,
    pub args: Vec<String>,
    pub failure: ErrorKind,
}

/// What a finished run printed, and whether it exited successfully.
#[derive(Debug)]
pub struct ToolOutput {
    pub success: bool,
    pub stdout: Vec<u8>,
    pub stderr: Vec<u8>,
}

impl Tool {
    pub closed spec fn location_view(&self) -> Seq<char> {
        self.location@
    }

    /// The tool found at `exec`.
    pub fn from_location(location: String) -> (r: Tool)
        ensures
            r.location_view() == location@,
    {
        Tool { location }
    }

    /// Where the program lives.
    pub fn location(&self) -> (r: &str)
        ensures
            r@ == self.location_view(),
    {
        self.location.as_str()
    }

    /// A run of this tool with `args`, failing as `failure`.
    pub fn invocation(&self, args: Vec<String>, failure: ErrorKind) -> (r: Invocation)
        ensures
            r.program@ == self.location_view(),
            r.args == args,
            r.failure == failure,
    {
        Invocation { program: self.location.clone(), args, failure }
    }
}

/// The views of a list of texts.
pub open spec fn views(v: Seq<String>) -> Seq<Seq<char>> {
    v.map_values(|s: String| s@)
}

impl Invocation {
    /// The arguments, as texts.
    pub open spec fn arg_views(&self) -> Seq<Seq<char>> {
        views(self.args@)
    }

    /// What a run ends in: nothing on success, the run's own failure otherwise.
    pub fn outcome(self, success: bool) -> (r: Result<(), ErrorKind>)
        ensures
            success ==> r is Ok,
            !success ==> r == Err::<(), ErrorKind>(self.failure),
    {
        if success {
            Ok(())
        } else {
            Err(self.failure)
        }
    }
}

} // verus!
