//! The six read strategies, their selection by name, and what each yields.
//!
//! Every strategy takes the buffer of the run, the length that the file's
//! metadata declares and the file's byte source, brings the file's bytes to
//! the front of the buffer and reports the declared length with the checksum
//! of the bytes read. A declared length beyond the capacity ends the run
//! before a byte is read.

use vstd::prelude::*;
use vstd::math::min;
use crate::buffer::{limit, limited, overwritten, Buffer, Window};
use crate::checksum::{checksum, checksum_of};
use crate::report::{Failure, Report};

verus! {

/// How a buffer starts out.
#[derive(Clone, Copy, Debug, PartialEq, Eq, Structural)]
pub enum Policy {
    /// The capacity is reserved and the logical length is zero: data is
    /// appended.
    Reserved,
    /// Every byte of the capacity is zero and valid: data is written over it.
    PreSized,
}

/// A way of bringing a file's bytes into the buffer.
#[derive(Clone, Copy, Debug, PartialEq, Eq, Structural)]
pub enum Strategy {
    /// Clear, then read to the end of the file, appending.
    Naive,
    /// Clear, then read to the end of the file limited to its declared
    /// length, appending.
    Take,
    /// Declare the first bytes valid, then read exactly so many into them.
    Exact,
    /// Read exactly into a window that is tested against the region.
    ExactSlice,
    /// Read exactly into a window that is made without a test.
    ExactSliceHideBackingSlice,
    /// Read once into the whole region, then compare the count.
    WholeSlice,
}

/// What a strategy yields for a buffer of `capacity` bytes and a file that
/// declares `declared` bytes and delivers `source`.
pub open spec fn outcome(strategy: Strategy, capacity: nat, declared: nat, source: Seq<u8>) -> Result<
    Report,
    Failure,
> {
    let report = Report {
        length: declared as usize,
        checksum: checksum_of(limited(source, declared)),
    };
    if declared > capacity {
        Err(Failure::TooLarge)
    } else {
        match strategy {
            Strategy::Naive | Strategy::Take => Ok(report),
            Strategy::Exact | Strategy::ExactSlice | Strategy::ExactSliceHideBackingSlice => {
                if source.len() < declared {
                    Err(Failure::ShortRead)
                } else {
                    Ok(report)
                }
            },
            Strategy::WholeSlice => {
                if min(source.len() as int, capacity as int) != declared {
                    Err(Failure::LengthMismatch)
                } else {
                    Ok(report)
                }
            },
        }
    }
}

/// What a strategy yields for a file whose declared length is the length of
/// its content.
pub open spec fn file_outcome(strategy: Strategy, capacity: nat, file: Seq<u8>) -> Result<
    Report,
    Failure,
> {
    outcome(strategy, capacity, file.len(), file)
}

/// The initialized region that a strategy leaves in a buffer. A file that is
/// too large leaves the region as it was, and so does a short read.
pub open spec fn region_after(
    strategy: Strategy,
    before: &Buffer,
    declared: nat,
    source: Seq<u8>,
) -> Seq<u8> {
    let capacity = before.spec_capacity();
    if declared > capacity {
        before.region()
    } else {
        match strategy {
            Strategy::Naive => limited(source, capacity),
            Strategy::Take => limited(source, declared),
            Strategy::Exact | Strategy::ExactSlice | Strategy::ExactSliceHideBackingSlice => {
                if source.len() < declared {
                    before.region()
                } else {
                    overwritten(before.region(), 0, declared, source)
                }
            },
            Strategy::WholeSlice => overwritten(
                before.region(),
                0,
                min(source.len() as int, capacity as int) as nat,
                source,
            ),
        }
    }
}

/// The logical length that a strategy leaves in a buffer.
pub open spec fn len_after(strategy: Strategy, before: &Buffer, declared: nat, source: Seq<u8>) -> nat {
    let capacity = before.spec_capacity();
    if declared > capacity {
        before.spec_len()
    } else {
        match strategy {
            Strategy::Naive => min(source.len() as int, capacity as int) as nat,
            Strategy::Take => min(source.len() as int, declared as int) as nat,
            Strategy::Exact => declared,
            _ => before.spec_len(),
        }
    }
}

/// Whether two buffers have the same capacity, region and logical length.
pub open spec fn untouched(before: &Buffer, after: &Buffer) -> bool {
    &&& after.spec_capacity() == before.spec_capacity()
    &&& after.region() == before.region()
    &&& after.spec_len() == before.spec_len()
}

/// Whether two character sequences are the same.
fn same_text(left: &str, right: &str) -> (same: bool)
    ensures
        same == (left@ == right@),
{
    let count: usize = left.unicode_len();
    if count != right.unicode_len() {
        return false;
    }
    let mut i: usize = 0;
    while i < count
        invariant
            count == left@.len(),
            count == right@.len(),
            i <= count,
            forall|k: int| 0 <= k < i ==> left@[k] == right@[k],
        decreases count - i,
    {
        if left.get_char(i) != right.get_char(i) {
            return false;
        }
        i = i + 1;
    }
    assert(left@ =~= right@);
    true
}

impl Strategy {
    /// The name by which the strategy is selected.
    pub open spec fn spec_name(&self) -> Seq<char> {
        match self {
            Strategy::Naive => "naive"@,
            Strategy::Take => "take"@,
            Strategy::Exact => "exact"@,
            Strategy::ExactSlice => "exact_slice"@,
            Strategy::ExactSliceHideBackingSlice => "exact_slice_hide_backing_slice"@,
            Strategy::WholeSlice => "whole_slice"@,
        }
    }

    /// The strategy that `name` selects, if any.
    pub open spec fn named(name: Seq<char>) -> Option<Strategy> {
        if name == "naive"@ {
            Some(Strategy::Naive)
        } else if name == "take"@ {
            Some(Strategy::Take)
        } else if name == "exact"@ {
            Some(Strategy::Exact)
        } else if name == "whole_slice"@ {
            Some(Strategy::WholeSlice)
        } else if name == "exact_slice"@ {
            Some(Strategy::ExactSlice)
        } else if name == "exact_slice_hide_backing_slice"@ {
            Some(Strategy::ExactSliceHideBackingSlice)
        } else {
            None
        }
    }

    /// The buffer policy that the strategy works on.
    pub open spec fn spec_policy(&self) -> Policy {
        match self {
            Strategy::Naive | Strategy::Take => Policy::Reserved,
            _ => Policy::PreSized,
        }
    }

    /// Whether the strategy can work on `buffer`: the buffer is well formed
    /// and, for a strategy that writes over bytes, wholly initialized.
    pub open spec fn accepts(&self, buffer: &Buffer) -> bool {
        &&& buffer.wf()
        &&& self.spec_policy() == Policy::PreSized ==> buffer.is_presized()
    }

    /// Selects a strategy by its name. Any other name selects none.
    pub fn from_name(name: &str) -> (strategy: Option<Strategy>)
        ensures
            strategy == Strategy::named(name@),
    {
        if same_text(name, "naive") {
            Some(Strategy::Naive)
        } else if same_text(name, "take") {
            Some(Strategy::Take)
        } else if same_text(name, "exact") {
            Some(Strategy::Exact)
        } else if same_text(name, "whole_slice") {
            Some(Strategy::WholeSlice)
        } else if same_text(name, "exact_slice") {
            Some(Strategy::ExactSlice)
        } else if same_text(name, "exact_slice_hide_backing_slice") {
            Some(Strategy::ExactSliceHideBackingSlice)
        } else {
            None
        }
    }

    /// The strategy's name.
    pub fn name(&self) -> (name: &'static str)
        ensures
            name@ == self.spec_name(),
    {
        match self {
            Strategy::Naive => "naive",
            Strategy::Take => "take",
            Strategy::Exact => "exact",
            Strategy::ExactSlice => "exact_slice",
            Strategy::ExactSliceHideBackingSlice => "exact_slice_hide_backing_slice",
            Strategy::WholeSlice => "whole_slice",
        }
    }

    /// The buffer policy that the strategy works on.
    pub fn policy(&self) -> (policy: Policy)
        ensures
            policy == self.spec_policy(),
    {
        match self {
            Strategy::Naive | Strategy::Take => Policy::Reserved,
            _ => Policy::PreSized,
        }
    }

    /// Allocates the buffer of a run: reserved and empty for a strategy that
    /// appends, zeroed and wholly valid for one that writes over bytes.
    pub fn allocate(&self, capacity: usize) -> (buffer: Buffer)
        ensures
            self.accepts(&buffer),
            buffer.spec_capacity() == capacity,
            self.spec_policy() == Policy::Reserved ==> buffer.region() == Seq::<u8>::empty()
                && buffer.spec_len() == 0,
            self.spec_policy() == Policy::PreSized ==> buffer.region() == Seq::new(
                capacity as nat,
                |i: int| 0u8,
            ) && buffer.spec_len() == capacity,
    {
        match self.policy() {
            Policy::Reserved => Buffer::reserved(capacity),
            Policy::PreSized => Buffer::zeroed(capacity),
        }
    }

    /// Runs one iteration of the strategy on the buffer.
    pub fn read_into(&self, buffer: &mut Buffer, declared: usize, source: &[u8]) -> (result: Result<
        Report,
        Failure,
    >)
        requires
            self.accepts(old(buffer)),
        ensures
            self.accepts(final(buffer)),
            final(buffer).spec_capacity() == old(buffer).spec_capacity(),
            result == outcome(*self, old(buffer).spec_capacity(), declared as nat, source@),
            final(buffer).region() == region_after(*self, old(buffer), declared as nat, source@),
            final(buffer).spec_len() == len_after(*self, old(buffer), declared as nat, source@),
            result is Ok ==> limited(final(buffer).region(), declared as nat) == limited(
                source@,
                declared as nat,
            ),
    {
        let result = match self {
            Strategy::Naive => naive(buffer, declared, source),
            Strategy::Take => take(buffer, declared, source),
            Strategy::Exact => exact(buffer, declared, source),
            Strategy::ExactSlice => exact_slice(buffer, declared, source),
            Strategy::ExactSliceHideBackingSlice => exact_slice_hide_backing_slice(
                buffer,
                declared,
                source,
            ),
            Strategy::WholeSlice => whole_slice(buffer, declared, source),
        };
        proof {
            if result is Ok {
                assert(limited(buffer.region(), declared as nat) =~= limited(
                    source@,
                    declared as nat,
                ));
            }
        }
        result
    }
}

/// Clears the buffer and reads the file to its end, appending as far as the
/// capacity goes. The checksum covers the first `declared` bytes of what was
/// read, or all of it where the file delivered fewer.
pub fn naive(buffer: &mut Buffer, declared: usize, source: &[u8]) -> (result: Result<Report, Failure>)
    requires
        old(buffer).wf(),
    ensures
        final(buffer).wf(),
        final(buffer).spec_capacity() == old(buffer).spec_capacity(),
        result == outcome(Strategy::Naive, old(buffer).spec_capacity(), declared as nat, source@),
        result is Err ==> untouched(old(buffer), final(buffer)),
        result is Ok ==> final(buffer)@ == limited(source@, old(buffer).spec_capacity())
            && final(buffer).region() == final(buffer)@,
{
    if declared > buffer.capacity() {
        return Err(Failure::TooLarge);
    }
    buffer.clear();
    let _count: usize = buffer.read_to_end(source);
    assert(buffer@ =~= limited(source@, old(buffer).spec_capacity()));
    assert(limited(buffer@, declared as nat) =~= limited(source@, declared as nat));
    let check: usize = checksum(limit(buffer.as_slice(), declared));
    Ok(Report { length: declared, checksum: check })
}

/// Clears the buffer and reads the file, limited to its declared length, to
/// the end, appending.
pub fn take(buffer: &mut Buffer, declared: usize, source: &[u8]) -> (result: Result<Report, Failure>)
    requires
        old(buffer).wf(),
    ensures
        final(buffer).wf(),
        final(buffer).spec_capacity() == old(buffer).spec_capacity(),
        result == outcome(Strategy::Take, old(buffer).spec_capacity(), declared as nat, source@),
        result is Err ==> untouched(old(buffer), final(buffer)),
        result is Ok ==> final(buffer)@ == limited(source@, declared as nat) && final(buffer).region() == final(buffer)@,
{
    if declared > buffer.capacity() {
        return Err(Failure::TooLarge);
    }
    buffer.clear();
    let _count: usize = buffer.read_to_end(limit(source, declared));
    assert(buffer@ =~= limited(source@, declared as nat));
    assert(limited(buffer@, declared as nat) =~= limited(source@, declared as nat));
    let check: usize = checksum(limit(buffer.as_slice(), declared));
    Ok(Report { length: declared, checksum: check })
}

/// Declares the first `declared` bytes of the region valid and reads exactly
/// so many bytes into them. No byte behind them is touched.
pub fn exact(buffer: &mut Buffer, declared: usize, source: &[u8]) -> (result: Result<Report, Failure>)
    requires
        old(buffer).wf(),
        old(buffer).is_presized(),
    ensures
        final(buffer).wf(),
        final(buffer).is_presized(),
        final(buffer).spec_capacity() == old(buffer).spec_capacity(),
        result == outcome(Strategy::Exact, old(buffer).spec_capacity(), declared as nat, source@),
        result == Err::<Report, Failure>(Failure::TooLarge) ==> untouched(old(buffer), final(buffer)),
        result == Err::<Report, Failure>(Failure::ShortRead) ==> final(buffer).region() == old(buffer).region() && final(buffer).spec_len() == declared,
        result is Ok ==> final(buffer).spec_len() == declared && final(buffer).region()
            == overwritten(old(buffer).region(), 0, declared as nat, source@),
{
    if declared > buffer.capacity() {
        return Err(Failure::TooLarge);
    }
    buffer.set_len(declared);
    let valid: usize = buffer.len();
    match buffer.read_exact(source, Window::trusted(0, valid)) {
        Err(failure) => Err(failure),
        Ok(()) => {
            assert(buffer@ =~= source@.take(declared as int));
            assert(limited(buffer@, declared as nat) =~= limited(source@, declared as nat));
            let check: usize = checksum(limit(buffer.as_slice(), declared));
            Ok(Report { length: declared, checksum: check })
        },
    }
}

/// Reads exactly `declared` bytes into a window at the front of the region.
/// The window is tested against the region when it is made. The logical
/// length stays as it is.
pub fn exact_slice(buffer: &mut Buffer, declared: usize, source: &[u8]) -> (result: Result<
    Report,
    Failure,
>)
    requires
        old(buffer).wf(),
        old(buffer).is_presized(),
    ensures
        final(buffer).wf(),
        final(buffer).is_presized(),
        final(buffer).spec_capacity() == old(buffer).spec_capacity(),
        final(buffer).spec_len() == old(buffer).spec_len(),
        result == outcome(
            Strategy::ExactSlice,
            old(buffer).spec_capacity(),
            declared as nat,
            source@,
        ),
        result is Err ==> untouched(old(buffer), final(buffer)),
        result is Ok ==> final(buffer).region() == overwritten(
            old(buffer).region(),
            0,
            declared as nat,
            source@,
        ),
{
    if declared > buffer.capacity() {
        return Err(Failure::TooLarge);
    }
    match buffer.window(0, declared) {
        None => Err(Failure::TooLarge),
        Some(window) => match buffer.read_exact(source, window) {
            Err(failure) => Err(failure),
            Ok(()) => {
                assert(limited(buffer.region(), declared as nat) =~= limited(
                    source@,
                    declared as nat,
                ));
                let check: usize = checksum(limit(buffer.whole(), declared));
                Ok(Report { length: declared, checksum: check })
            },
        },
    }
}

/// Reads exactly `declared` bytes into a window at the front of the region.
/// The window is made without a test: that it fits follows from the declared
/// length being within the capacity, and from nothing else.
pub fn exact_slice_hide_backing_slice(buffer: &mut Buffer, declared: usize, source: &[u8]) -> (result:
    Result<Report, Failure>)
    requires
        old(buffer).wf(),
        old(buffer).is_presized(),
    ensures
        final(buffer).wf(),
        final(buffer).is_presized(),
        final(buffer).spec_capacity() == old(buffer).spec_capacity(),
        final(buffer).spec_len() == old(buffer).spec_len(),
        result == outcome(
            Strategy::ExactSliceHideBackingSlice,
            old(buffer).spec_capacity(),
            declared as nat,
            source@,
        ),
        result is Err ==> untouched(old(buffer), final(buffer)),
        result is Ok ==> final(buffer).region() == overwritten(
            old(buffer).region(),
            0,
            declared as nat,
            source@,
        ),
{
    if declared > buffer.capacity() {
        return Err(Failure::TooLarge);
    }
    match buffer.read_exact(source, Window::trusted(0, declared)) {
        Err(failure) => Err(failure),
        Ok(()) => {
            assert(limited(buffer.region(), declared as nat) =~= limited(source@, declared as nat));
            let check: usize = checksum(limit(buffer.whole(), declared));
            Ok(Report { length: declared, checksum: check })
        },
    }
}

/// Reads once into the whole region and compares the number of bytes that
/// came with the declared length. The bytes stay in the region whether or
/// not the two agree.
pub fn whole_slice(buffer: &mut Buffer, declared: usize, source: &[u8]) -> (result: Result<
    Report,
    Failure,
>)
    requires
        old(buffer).wf(),
        old(buffer).is_presized(),
    ensures
        final(buffer).wf(),
        final(buffer).is_presized(),
        final(buffer).spec_capacity() == old(buffer).spec_capacity(),
        final(buffer).spec_len() == old(buffer).spec_len(),
        result == outcome(
            Strategy::WholeSlice,
            old(buffer).spec_capacity(),
            declared as nat,
            source@,
        ),
        result == Err::<Report, Failure>(Failure::TooLarge) ==> untouched(old(buffer), final(buffer)),
        result != Err::<Report, Failure>(Failure::TooLarge) ==> final(buffer).region() == overwritten(
            old(buffer).region(),
            0,
            min(source@.len() as int, old(buffer).spec_capacity() as int) as nat,
            source@,
        ),
{
    if declared > buffer.capacity() {
        return Err(Failure::TooLarge);
    }
    let count: usize = buffer.read(source);
    if count != declared {
        return Err(Failure::LengthMismatch);
    }
    assert(limited(buffer.region(), declared as nat) =~= limited(source@, declared as nat));
    let check: usize = checksum(limit(buffer.whole(), declared));
    Ok(Report { length: declared, checksum: check })
}

} // verus!
