//! The error taxonomy.
//!
//! Every failure of the tool is one of three kinds, each surfaced at once to
//! the top level with a human-readable message and a non-zero exit code:
//! arguments that do not parse, inputs that do not decode, outputs that do
//! not encode.

use vstd::prelude::*;
use vstd::string::StringExecFns;

use crate::command::ArgIssue;

verus! {

/// A fatal failure of one invocation.
#[derive(Clone, Debug, PartialEq, Eq)]
pub enum RunError {
    /// The argument vector was rejected; no file was touched.
    Argument(ArgIssue),
    /// The input file is missing, unreadable, or not a supported image; the
    /// payload is the decoder's description of the cause.
    Decode(String),
    /// The output could not be written or its format is unsupported; the
    /// payload is the encoder's description of the cause.
    Encode(String),
}

/// The usage hint printed beside an argument error.
pub open spec fn usage_line() -> Seq<char> {
    "usage: resizer resize <INPUT> <WIDTH> <HEIGHT> --output <OUTPUT> | resizer info <INPUT>"@
}

impl RunError {
    /// The message this error is reported with.
    pub open spec fn spec_message(&self) -> Seq<char> {
        match self {
            RunError::Argument(ArgIssue::Usage) => usage_line(),
            RunError::Argument(ArgIssue::BadWidth) => "width must be an unsigned integer"@,
            RunError::Argument(ArgIssue::BadHeight) => "height must be an unsigned integer"@,
            RunError::Decode(cause) => "could not decode the input image: "@ + cause@,
            RunError::Encode(cause) => "could not encode the output image: "@ + cause@,
        }
    }

    /// Render the message this error is reported with.
    pub fn message(&self) -> (s: String)
        ensures
            s@ == self.spec_message(),
    {
        match self {
            RunError::Argument(ArgIssue::Usage) => String::from_str(
                "usage: resizer resize <INPUT> <WIDTH> <HEIGHT> --output <OUTPUT> | resizer info <INPUT>",
            ),
            RunError::Argument(ArgIssue::BadWidth) => String::from_str(
                "width must be an unsigned integer",
            ),
            RunError::Argument(ArgIssue::BadHeight) => String::from_str(
                "height must be an unsigned integer",
            ),
            RunError::Decode(cause) => String::from_str("could not decode the input image: ")
                .concat(cause.as_str()),
            RunError::Encode(cause) => String::from_str("could not encode the output image: ")
                .concat(cause.as_str()),
        }
    }

    /// The process exit code this error terminates with: always non-zero.
    pub fn exit_code(&self) -> (c: i32)
        ensures
            c == 1,
    {
        1
    }
}

} // verus!
