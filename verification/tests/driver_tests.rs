use buffer_reads::driver::{run, Run};
use buffer_reads::report::{Failure, Report};
use buffer_reads::strategy::Strategy;

fn each() -> Vec<Strategy> {
    vec![
        Strategy::Naive,
        Strategy::Take,
        Strategy::Exact,
        Strategy::ExactSlice,
        Strategy::ExactSliceHideBackingSlice,
        Strategy::WholeSlice,
    ]
}

#[test]
fn a_run_yields_one_report_for_each_iteration() {
    let file: Vec<u8> = vec![1, 2, 3, 4, 5];
    for strategy in each() {
        let reports = run(strategy, 1024, file.len(), &file, 7);
        assert_eq!(reports, Ok(vec![Report { length: 5, checksum: 15 }; 7]));
    }
}

#[test]
fn a_run_of_one_iteration() {
    let file: Vec<u8> = vec![1, 2, 3, 4, 5];
    assert_eq!(
        run(Strategy::Exact, 1024, 5, &file, 1),
        Ok(vec![Report { length: 5, checksum: 15 }])
    );
    assert_eq!(
        run(Strategy::WholeSlice, 1024, 5, &file, 1),
        Ok(vec![Report { length: 5, checksum: 15 }])
    );
}

#[test]
fn a_run_of_no_iterations_yields_nothing() {
    let file: Vec<u8> = vec![0u8; 2000];
    for strategy in each() {
        assert_eq!(run(strategy, 1000, file.len(), &file, 0), Ok(vec![]));
    }
}

#[test]
fn a_run_fails_on_a_file_beyond_the_capacity() {
    let file: Vec<u8> = vec![0u8; 2000];
    for strategy in each() {
        assert_eq!(run(strategy, 1000, file.len(), &file, 3), Err(Failure::TooLarge));
    }
}

#[test]
fn a_run_fails_as_its_strategy_does() {
    assert_eq!(run(Strategy::Exact, 8, 4, &[1, 2, 3], 2), Err(Failure::ShortRead));
    assert_eq!(run(Strategy::WholeSlice, 8, 4, &[1, 2, 3], 2), Err(Failure::LengthMismatch));
    assert_eq!(
        run(Strategy::Naive, 8, 4, &[1, 2, 3], 2),
        Ok(vec![Report { length: 4, checksum: 6 }; 2])
    );
}

#[test]
fn all_runs_agree() {
    let file: Vec<u8> = vec![200, 100, 50, 25, 12, 6, 3, 1];
    let expected = run(Strategy::Naive, 8, file.len(), &file, 5);
    assert_eq!(expected, Ok(vec![Report { length: 8, checksum: 397 }; 5]));
    for strategy in each() {
        assert_eq!(run(strategy, 8, file.len(), &file, 5), expected);
    }
}

#[test]
fn a_started_run_has_its_buffer() {
    let state = Run::start(Strategy::ExactSlice, 16, 3);
    assert_eq!(state.strategy(), Strategy::ExactSlice);
    assert_eq!(state.remaining(), 3);
    assert!(!state.is_done());
    assert_eq!(state.buffer().capacity(), 16);
    assert_eq!(state.buffer().len(), 16);
    let state = Run::start(Strategy::Naive, 16, 0);
    assert!(state.is_done());
    assert_eq!(state.buffer().capacity(), 16);
    assert_eq!(state.buffer().len(), 0);
}

#[test]
fn iterations_count_down() {
    let file: Vec<u8> = vec![4, 5, 6];
    let mut state = Run::start(Strategy::Take, 16, 2);
    assert_eq!(state.iterate(3, &file), Some(Ok(Report { length: 3, checksum: 15 })));
    assert_eq!(state.remaining(), 1);
    assert_eq!(state.iterate(3, &file), Some(Ok(Report { length: 3, checksum: 15 })));
    assert_eq!(state.remaining(), 0);
    assert!(state.is_done());
    assert_eq!(state.iterate(3, &file), None);
    assert_eq!(state.buffer().as_slice(), &file[..]);
}

#[test]
fn a_failure_ends_the_run() {
    let mut state = Run::start(Strategy::Exact, 4, 10);
    assert_eq!(state.iterate(3, &[1, 2, 3]), Some(Ok(Report { length: 3, checksum: 6 })));
    assert_eq!(state.remaining(), 9);
    assert_eq!(state.iterate(5, &[1, 2, 3, 4, 5]), Some(Err(Failure::TooLarge)));
    assert_eq!(state.remaining(), 0);
    assert!(state.is_done());
    assert_eq!(state.buffer().whole(), &[1u8, 2, 3, 0][..]);
    assert_eq!(state.iterate(3, &[1, 2, 3]), None);
}

#[test]
fn a_run_follows_a_file_that_changes() {
    let mut state = Run::start(Strategy::WholeSlice, 8, 3);
    assert_eq!(state.iterate(2, &[1, 2]), Some(Ok(Report { length: 2, checksum: 3 })));
    assert_eq!(state.iterate(4, &[5, 5, 5, 5]), Some(Ok(Report { length: 4, checksum: 20 })));
    assert_eq!(state.iterate(1, &[7]), Some(Ok(Report { length: 1, checksum: 7 })));
    assert_eq!(state.buffer().whole(), &[7u8, 5, 5, 5, 0, 0, 0, 0][..]);
    assert!(state.is_done());
}

#[test]
fn a_run_admits_what_fits_its_buffer() {
    let state = Run::start(Strategy::Naive, 1000, 1);
    assert_eq!(state.admits(0), Ok(()));
    assert_eq!(state.admits(999), Ok(()));
    assert_eq!(state.admits(1000), Ok(()));
    assert_eq!(state.admits(1001), Err(Failure::TooLarge));
    assert_eq!(state.admits(2000), Err(Failure::TooLarge));
    assert_eq!(state.admits(usize::MAX), Err(Failure::TooLarge));
}
