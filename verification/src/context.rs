//! Global options of the command line.

use vstd::prelude::*;

verus! {

/// How results and errors are printed.
#[derive(Debug, Clone, Copy, PartialEq, Eq, Structural)]
pub enum OutputFormat {
    Text,
    Json,
}

impl Default for OutputFormat {
    fn default() -> (r: Self)
        ensures
            r == OutputFormat::Text,
    {
        OutputFormat::Text
    }
}

/// The options that every command sees.
#[derive(Debug, Clone, Copy)]
pub struct Context {
    pub output: OutputFormat,
    pub quiet: bool,
}

impl Context {
    /// The informational line to print for `msg`, or nothing when quiet.
    pub fn log(&self, msg: &str) -> (r: Option<String>)
        ensures
            self.quiet ==> r is None,
            !self.quiet ==> r is Some && r->0@ == msg@,
    {
        if self.quiet {
            None
        } else {
            Some(msg.to_owned())
        }
    }
}

} // verus!
