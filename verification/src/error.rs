//! The error that every command reports, and the line it is reported with.

use crate::context::{Context, OutputFormat};
use vstd::prelude::*;

verus! {

/// An error with a stable code for programs and a message for people.
#[derive(Debug)]
pub struct SodagunError {
    pub code: &'static str,
    pub message: String,
}

/// The text of an error.
pub ghost struct Failure {
    pub code: Seq<char>,
    pub message: Seq<char>,
}

/// The failure with this code and message.
pub open spec fn failure(code: Seq<char>, message: Seq<char>) -> Failure {
    Failure { code, message }
}

impl View for SodagunError {
    type V = Failure;

    open spec fn view(&self) -> Failure {
        Failure { code: self.code@, message: self.message@ }
    }
}

/// The error with this code and message.
pub fn fault(code: &'static str, message: String) -> (e: SodagunError)
    ensures
        e@ == failure(code@, message@),
        e.code == code,
{
    SodagunError { code, message }
}

/// What follows the word `Error` where an error is reported as text.
pub open spec fn error_detail(f: Failure) -> Seq<char> {
    " ["@ + f.code + "]: "@ + f.message
}

impl SodagunError {
    /// What follows the word `Error` where this error is reported as text: ` [CODE]: message`.
    pub fn detail(&self) -> (r: String)
        ensures
            r@ == error_detail(self@),
    {
        " [".to_owned().concat(self.code).concat("]: ").concat(self.message.as_str())
    }
}

/// Where an error goes: JSON carries the code on standard output, so that `--output json`
/// stays parseable; text carries code and message on standard error.
#[derive(Debug)]
pub enum ErrorReport {
    Json { code: &'static str },
    Text { detail: String },
}

/// What a failing command prints before it exits with status 1.
pub fn handle_error(ctx: Context, err: &SodagunError) -> (r: ErrorReport)
    ensures
        match ctx.output {
            OutputFormat::Json => r matches ErrorReport::Json { code } && code@ == err@.code,
            OutputFormat::Text => r matches ErrorReport::Text { detail } && detail@
                == error_detail(err@),
        },
{
    match ctx.output {
        OutputFormat::Json => ErrorReport::Json { code: err.code },
        OutputFormat::Text => ErrorReport::Text { detail: err.detail() },
    }
}

} // verus!
