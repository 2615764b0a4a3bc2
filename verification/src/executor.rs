//! A run of an external program: what to start, with which arguments and
//! how long it may take. Starting it is left to the caller.
use vstd::prelude::*;
use crate::timeout::Timeout;
use crate::downloader::strings_view;

verus! {

/// A program run, described by its executable, its arguments and its time limit.
#[derive(Debug)]
pub struct Executor {
    /// Path of the executable.
    pub executable: String,
    /// Arguments, in the order they are passed.
    pub args: Vec<String>,
    /// The time limit of the run.
    pub timeout: Timeout,
}

/// What an [`Executor`] describes.
pub struct ExecutorView {
    pub executable: Seq<char>,
    pub args: Seq<Seq<char>>,
    pub timeout: Timeout,
}

impl View for Executor {
    type V = ExecutorView;

    open spec fn view(&self) -> ExecutorView {
        ExecutorView {
            executable: self.executable@,
            args: strings_view(self.args@),
            timeout: self.timeout,
        }
    }
}

impl Executor {
    /// The run of `executable` with `args`, limited to `timeout`.
    pub fn new(executable: String, args: Vec<String>, timeout: Timeout) -> (e: Executor)
        ensures
            e@ == (ExecutorView {
                executable: executable@,
                args: strings_view(args@),
                timeout,
            }),
    {
        Executor { executable, args, timeout }
    }
}

} // verus!
