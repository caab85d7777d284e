//! The command line: a method name, an optional buffer size, and the lines
//! that answer them.

use vstd::prelude::*;
use crate::decimal::{append_decimal, decimal, parse_positive, positive_of};
use crate::strategy::Strategy;

verus! {

/// The buffer size of a run that names none, in bytes.
pub const DEFAULT_BUFFER_SIZE: usize = 314_572_800;

/// The number of iterations of a run.
pub const ITERATIONS: usize = 1000;

/// What a command line asks for.
#[derive(Clone, Copy, Debug, PartialEq, Eq, Structural)]
pub enum Invocation {
    /// No method is named: the usage line is due.
    Usage,
    /// The buffer size is not a positive number that fits the machine's word.
    BadBufferSize,
    /// The buffer size is in order and the method's name selects nothing.
    Unknown { buffer_size: usize },
    /// A run of `strategy` with a buffer of `buffer_size` bytes.
    Run { strategy: Strategy, buffer_size: usize },
}

/// The buffer size that the optional argument gives: the default where
/// there is none, and none where it is not a positive number.
pub open spec fn buffer_size_of(argument: Option<&str>) -> Option<usize> {
    match argument {
        None => Some(DEFAULT_BUFFER_SIZE),
        Some(text) => positive_of(text@),
    }
}

/// What the two arguments ask for. The buffer size is judged before the
/// method's name.
pub open spec fn invocation_of(method: Option<&str>, buffer_size: Option<&str>) -> Invocation {
    match method {
        None => Invocation::Usage,
        Some(name) => match buffer_size_of(buffer_size) {
            None => Invocation::BadBufferSize,
            Some(size) => match Strategy::named(name@) {
                None => Invocation::Unknown { buffer_size: size },
                Some(strategy) => Invocation::Run { strategy, buffer_size: size },
            },
        },
    }
}

/// Reads the two arguments that follow the program's name.
pub fn parse_invocation(method: Option<&str>, buffer_size: Option<&str>) -> (invocation: Invocation)
    ensures
        invocation == invocation_of(method, buffer_size),
{
    let name: &str = match method {
        None => {
            return Invocation::Usage;
        },
        Some(name) => name,
    };
    let size: Option<usize> = match buffer_size {
        None => Some(DEFAULT_BUFFER_SIZE),
        Some(text) => parse_positive(text),
    };
    match size {
        None => Invocation::BadBufferSize,
        Some(size) => match Strategy::from_name(name) {
            None => Invocation::Unknown { buffer_size: size },
            Some(strategy) => Invocation::Run { strategy, buffer_size: size },
        },
    }
}

/// The line that tells how the program is called.
pub fn usage_line(program: &str) -> (line: String)
    ensures
        line@ == "usage: "@ + program@ + " <method>"@,
{
    let mut line: String = String::from_str("usage: ");
    line.append(program);
    line.append(" <method>");
    line
}

/// The line that reports the buffer size in effect.
pub fn buffer_size_line(buffer_size: usize) -> (line: String)
    ensures
        line@ == "Using buffer size: "@ + decimal(buffer_size as nat),
{
    let mut line: String = String::from_str("Using buffer size: ");
    append_decimal(&mut line, buffer_size);
    line
}

/// The line that answers a method's name that selects nothing.
pub fn unknown_method_line(method: &str) -> (line: String)
    ensures
        line@ == "Unknown method: "@ + method@,
{
    let mut line: String = String::from_str("Unknown method: ");
    line.append(method);
    line
}

} // verus!
