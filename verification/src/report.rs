//! What one iteration yields: a report, or the reason why the run ends.

use vstd::prelude::*;
use crate::decimal::{append_decimal, decimal};

verus! {

/// The outcome of one successful iteration: the file's length and the
/// checksum of the bytes that were read.
#[derive(Clone, Copy, Debug, PartialEq, Eq, Structural)]
pub struct Report {
    pub length: usize,
    pub checksum: usize,
}

impl Report {
    /// The line that reports the iteration.
    pub open spec fn spec_line(&self) -> Seq<char> {
        "length: "@ + decimal(self.length as nat) + ", check: "@ + decimal(self.checksum as nat)
    }

    /// The line that reports the iteration: the length and the checksum, in
    /// decimal.
    pub fn line(&self) -> (line: String)
        ensures
            line@ == self.spec_line(),
    {
        let mut line: String = String::from_str("length: ");
        append_decimal(&mut line, self.length);
        line.append(", check: ");
        append_decimal(&mut line, self.checksum);
        line
    }
}

/// Why an iteration, and with it the whole run, ends without a report.
#[derive(Clone, Copy, Debug, PartialEq, Eq, Structural)]
pub enum Failure {
    /// The file's declared length exceeds the buffer's capacity.
    TooLarge,
    /// The file ended before an exact-length read was complete.
    ShortRead,
    /// A single read of the whole buffer brought a number of bytes other
    /// than the file's declared length.
    LengthMismatch,
}

} // verus!
