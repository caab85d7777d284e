//! What holds of the strategies and of a run, whatever the file.

use vstd::prelude::*;
use crate::buffer::{limited, Buffer};
use crate::checksum::checksum_of;
use crate::driver::run_outcome;
use crate::report::{Failure, Report};
use crate::strategy::{file_outcome, len_after, outcome, region_after, Policy, Strategy};

verus! {

/// On a file whose declared length is the length of its content, every
/// strategy yields the same: the file's length and the checksum of its
/// content where the file fits the capacity, and the failure of a file that
/// is too large where it does not.
pub proof fn lemma_file_outcome(strategy: Strategy, capacity: nat, file: Seq<u8>)
    ensures
        file.len() <= capacity ==> file_outcome(strategy, capacity, file) == Ok::<Report, Failure>(
            Report { length: file.len() as usize, checksum: checksum_of(file) },
        ),
        file.len() > capacity ==> file_outcome(strategy, capacity, file) == Err::<Report, Failure>(
            Failure::TooLarge,
        ),
{
    assert(limited(file, file.len()) =~= file);
}

/// Any two strategies yield the same on the same file and capacity.
pub proof fn lemma_strategies_agree(first: Strategy, second: Strategy, capacity: nat, file: Seq<u8>)
    ensures
        file_outcome(first, capacity, file) == file_outcome(second, capacity, file),
{
    lemma_file_outcome(first, capacity, file);
    lemma_file_outcome(second, capacity, file);
}

/// Any two strategies yield the same reports, or the same failure, over a
/// run of the same number of iterations on the same file and capacity.
pub proof fn lemma_runs_agree(
    first: Strategy,
    second: Strategy,
    capacity: nat,
    file: Seq<u8>,
    iterations: nat,
)
    ensures
        run_outcome(first, capacity, file.len(), file, iterations) == run_outcome(
            second,
            capacity,
            file.len(),
            file,
            iterations,
        ),
{
    lemma_strategies_agree(first, second, capacity, file);
}

/// A file that fills the capacity exactly is read by every strategy.
pub proof fn lemma_exact_fit(strategy: Strategy, file: Seq<u8>)
    ensures
        file_outcome(strategy, file.len(), file) == Ok::<Report, Failure>(
            Report { length: file.len() as usize, checksum: checksum_of(file) },
        ),
{
    lemma_file_outcome(strategy, file.len(), file);
}

/// A declared length beyond the capacity makes every strategy fail, whatever
/// the file delivers, and a run of one iteration or more fail with it.
pub proof fn lemma_overflow_fails(
    strategy: Strategy,
    capacity: nat,
    declared: nat,
    source: Seq<u8>,
    iterations: nat,
)
    requires
        declared > capacity,
    ensures
        outcome(strategy, capacity, declared, source) == Err::<Report, Failure>(Failure::TooLarge),
        iterations > 0 ==> run_outcome(strategy, capacity, declared, source, iterations) == Err::<
            Seq<Report>,
            Failure,
        >(Failure::TooLarge),
{
}

/// A declared length beyond the capacity leaves the buffer as it was: no
/// byte is read and the logical length stays.
pub proof fn lemma_overflow_reads_nothing(
    strategy: Strategy,
    before: &Buffer,
    declared: nat,
    source: Seq<u8>,
)
    requires
        declared > before.spec_capacity(),
    ensures
        region_after(strategy, before, declared, source) == before.region(),
        len_after(strategy, before, declared, source) == before.spec_len(),
{
}

/// After a strategy has read a file that fits the buffer, the front of the
/// region holds the file's bytes.
pub proof fn lemma_file_in_front(strategy: Strategy, before: &Buffer, file: Seq<u8>)
    requires
        strategy.accepts(before),
        file.len() <= before.spec_capacity(),
    ensures
        region_after(strategy, before, file.len(), file).len() >= file.len(),
        region_after(strategy, before, file.len(), file).take(file.len() as int) == file,
{
    let after = region_after(strategy, before, file.len(), file);
    assert(after.len() >= file.len());
    assert(after.take(file.len() as int) =~= file);
}

/// A strategy that writes over a wholly initialized buffer keeps its size
/// and touches no byte behind the file's declared length, unless it reads
/// once into the whole region: then it touches none behind what the file
/// delivered.
pub proof fn lemma_bytes_behind_stay(
    strategy: Strategy,
    before: &Buffer,
    declared: nat,
    source: Seq<u8>,
    index: int,
)
    requires
        strategy.spec_policy() == Policy::PreSized,
        strategy.accepts(before),
        0 <= index < before.spec_capacity(),
        strategy == Strategy::WholeSlice ==> index >= source.len(),
        strategy != Strategy::WholeSlice ==> index >= declared,
    ensures
        region_after(strategy, before, declared, source).len() == before.spec_capacity(),
        region_after(strategy, before, declared, source)[index] == before.region()[index],
{
}

/// A strategy fails as too large only where the declared length is beyond
/// the capacity.
pub proof fn lemma_too_large_only_on_overflow(
    strategy: Strategy,
    capacity: nat,
    declared: nat,
    source: Seq<u8>,
)
    ensures
        outcome(strategy, capacity, declared, source) == Err::<Report, Failure>(Failure::TooLarge)
            <==> declared > capacity,
{
}

/// A run on a file that stays as it is either fails, or yields one report
/// for each iteration, and all of them are the report of a single
/// iteration.
pub proof fn lemma_iterations_identical(
    strategy: Strategy,
    capacity: nat,
    declared: nat,
    source: Seq<u8>,
    iterations: nat,
)
    ensures
        match run_outcome(strategy, capacity, declared, source, iterations) {
            Ok(reports) => reports.len() == iterations && forall|i: int|
                0 <= i < iterations ==> Ok::<Report, Failure>(#[trigger] reports[i]) == outcome(
                    strategy,
                    capacity,
                    declared,
                    source,
                ),
            Err(failure) => iterations > 0 && outcome(strategy, capacity, declared, source) == Err::<
                Report,
                Failure,
            >(failure),
        },
{
}

/// The name of a strategy selects that strategy.
pub proof fn lemma_name_selects(strategy: Strategy)
    ensures
        Strategy::named(strategy.spec_name()) == Some(strategy),
{
    reveal_strlit("naive");
    reveal_strlit("take");
    reveal_strlit("exact");
    reveal_strlit("whole_slice");
    reveal_strlit("exact_slice");
    reveal_strlit("exact_slice_hide_backing_slice");
    assert("naive"@[0] != "exact"@[0]);
    assert("whole_slice"@[0] != "exact_slice"@[0]);
    assert("naive"@.len() == 5 && "take"@.len() == 4 && "exact"@.len() == 5);
    assert("whole_slice"@.len() == 11 && "exact_slice"@.len() == 11);
    assert("exact_slice_hide_backing_slice"@.len() == 30);
}

} // verus!
