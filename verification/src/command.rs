//! The argument grammar.
//!
//! One invocation is parsed into exactly one [`Command`]:
//!
//! ```text
//! resizer resize <INPUT> <WIDTH> <HEIGHT> --output <OUTPUT>
//! resizer info <INPUT>
//! ```
//!
//! Width and height must be decimal numerals that fit in a `u32`; anything
//! else is rejected here, before any file is touched — this crate performs no
//! input or output at all.

use vstd::prelude::*;
use vstd::string::StringExecFns;

use crate::numerals::dec_val;
use crate::numerals::is_u32_numeral;
use crate::numerals::parse_u32;

verus! {

/// One parsed invocation of the tool.
#[derive(Clone, Debug, PartialEq, Eq)]
pub enum Command {
    /// Scale the image at `input` to `width` by `height` pixels and save the
    /// result at `output`.
    Resize { input: String, width: u32, height: u32, output: String },
    /// Report the dimensions and color layout of the image at `input`.
    Info { input: String },
}

/// Why an argument vector was rejected.
#[derive(Clone, Copy, Debug, PartialEq, Eq, Structural)]
pub enum ArgIssue {
    /// The arguments fit neither form of the grammar.
    Usage,
    /// The width token is not a decimal numeral that fits in a `u32`.
    BadWidth,
    /// The height token is not a decimal numeral that fits in a `u32`.
    BadHeight,
}

/// The `info` form: exactly `info <INPUT>`.
pub open spec fn is_info_shape(args: Seq<String>) -> bool {
    args.len() == 2 && args[0]@ == "info"@
}

/// The `resize` form: exactly `resize <INPUT> <WIDTH> <HEIGHT> --output <OUTPUT>`.
pub open spec fn is_resize_shape(args: Seq<String>) -> bool {
    args.len() == 6 && args[0]@ == "resize"@ && args[4]@ == "--output"@
}

/// Whether the argument at `i` reads exactly `lit`.
fn nth_is(args: &Vec<String>, i: usize, lit: &str) -> (b: bool)
    requires
        i < args@.len(),
    ensures
        b == (args@[i as int]@ == lit@),
{
    let s: &String = &args[i];
    let l: String = String::from_str(lit);
    *s == l
}

/// Parse an argument vector (without the program name) into a [`Command`].
///
/// The two forms of the grammar are matched literally; in the `resize` form
/// the width token is checked before the height token, and each must be a
/// decimal numeral whose value fits in a `u32`.  Every other vector is a
/// usage error.
pub fn parse_command(args: &Vec<String>) -> (r: Result<Command, ArgIssue>)
    ensures
        is_info_shape(args@) ==> (r matches Ok(Command::Info { input }) && input@ == args@[1]@),
        is_resize_shape(args@) && is_u32_numeral(args@[2]@) && is_u32_numeral(args@[3]@) ==> (
        r matches Ok(Command::Resize { input, width, height, output }) && input@ == args@[1]@
            && width == dec_val(args@[2]@) && height == dec_val(args@[3]@) && output@
            == args@[5]@),
        is_resize_shape(args@) && !is_u32_numeral(args@[2]@) ==> r == Err::<Command, ArgIssue>(
            ArgIssue::BadWidth,
        ),
        is_resize_shape(args@) && is_u32_numeral(args@[2]@) && !is_u32_numeral(args@[3]@) ==> r
            == Err::<Command, ArgIssue>(ArgIssue::BadHeight),
        !is_info_shape(args@) && !is_resize_shape(args@) ==> r == Err::<Command, ArgIssue>(
            ArgIssue::Usage,
        ),
{
    if args.len() == 2 && nth_is(args, 0, "info") {
        let input: String = args[1].clone();
        return Ok(Command::Info { input });
    }
    if args.len() == 6 && nth_is(args, 0, "resize") && nth_is(args, 4, "--output") {
        let width: u32 = match parse_u32(args[2].as_str()) {
            Some(w) => w,
            None => {
                return Err(ArgIssue::BadWidth);
            },
        };
        let height: u32 = match parse_u32(args[3].as_str()) {
            Some(h) => h,
            None => {
                return Err(ArgIssue::BadHeight);
            },
        };
        let input: String = args[1].clone();
        let output: String = args[5].clone();
        return Ok(Command::Resize { input, width, height, output });
    }
    Err(ArgIssue::Usage)
}

} // verus!
