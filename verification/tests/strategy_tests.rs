use buffer_reads::buffer::Buffer;
use buffer_reads::report::{Failure, Report};
use buffer_reads::strategy::{
    exact, exact_slice, exact_slice_hide_backing_slice, naive, take, whole_slice, Policy, Strategy,
};

fn all() -> Vec<Strategy> {
    vec![
        Strategy::Naive,
        Strategy::Take,
        Strategy::Exact,
        Strategy::ExactSlice,
        Strategy::ExactSliceHideBackingSlice,
        Strategy::WholeSlice,
    ]
}

#[test]
fn names_select_their_strategies() {
    assert_eq!(Strategy::from_name("naive"), Some(Strategy::Naive));
    assert_eq!(Strategy::from_name("take"), Some(Strategy::Take));
    assert_eq!(Strategy::from_name("exact"), Some(Strategy::Exact));
    assert_eq!(Strategy::from_name("exact_slice"), Some(Strategy::ExactSlice));
    assert_eq!(
        Strategy::from_name("exact_slice_hide_backing_slice"),
        Some(Strategy::ExactSliceHideBackingSlice)
    );
    assert_eq!(Strategy::from_name("whole_slice"), Some(Strategy::WholeSlice));
}

#[test]
fn other_names_select_nothing() {
    assert_eq!(Strategy::from_name(""), None);
    assert_eq!(Strategy::from_name("Naive"), None);
    assert_eq!(Strategy::from_name("naive "), None);
    assert_eq!(Strategy::from_name("exact_"), None);
    assert_eq!(Strategy::from_name("exact_slice_hide"), None);
    assert_eq!(Strategy::from_name("direct"), None);
    assert_eq!(Strategy::from_name("take\n"), None);
    assert_eq!(Strategy::from_name("t\u{e4}ke"), None);
}

#[test]
fn a_name_selects_its_own_strategy() {
    for strategy in all() {
        assert_eq!(Strategy::from_name(strategy.name()), Some(strategy));
    }
    assert_eq!(Strategy::Naive.name(), "naive");
    assert_eq!(Strategy::Take.name(), "take");
    assert_eq!(Strategy::Exact.name(), "exact");
    assert_eq!(Strategy::ExactSlice.name(), "exact_slice");
    assert_eq!(
        Strategy::ExactSliceHideBackingSlice.name(),
        "exact_slice_hide_backing_slice"
    );
    assert_eq!(Strategy::WholeSlice.name(), "whole_slice");
}

#[test]
fn policies_of_the_strategies() {
    assert_eq!(Strategy::Naive.policy(), Policy::Reserved);
    assert_eq!(Strategy::Take.policy(), Policy::Reserved);
    assert_eq!(Strategy::Exact.policy(), Policy::PreSized);
    assert_eq!(Strategy::ExactSlice.policy(), Policy::PreSized);
    assert_eq!(Strategy::ExactSliceHideBackingSlice.policy(), Policy::PreSized);
    assert_eq!(Strategy::WholeSlice.policy(), Policy::PreSized);
}

#[test]
fn allocate_follows_the_policy() {
    let reserved = Strategy::Take.allocate(32);
    assert_eq!(reserved.capacity(), 32);
    assert_eq!(reserved.len(), 0);
    assert_eq!(reserved.initialized(), 0);
    let presized = Strategy::WholeSlice.allocate(32);
    assert_eq!(presized.capacity(), 32);
    assert_eq!(presized.len(), 32);
    assert_eq!(presized.whole(), &[0u8; 32][..]);
}

#[test]
fn exact_reads_five_bytes() {
    let file: Vec<u8> = vec![1, 2, 3, 4, 5];
    let mut buffer = Buffer::zeroed(1024);
    let result = exact(&mut buffer, 5, &file);
    assert_eq!(result, Ok(Report { length: 5, checksum: 15 }));
    assert_eq!(buffer.len(), 5);
    assert_eq!(buffer.as_slice(), &file[..]);
    assert_eq!(buffer.capacity(), 1024);
    assert_eq!(buffer.initialized(), 1024);
}

#[test]
fn whole_slice_reads_five_bytes_as_exact_does() {
    let file: Vec<u8> = vec![1, 2, 3, 4, 5];
    let mut buffer = Buffer::zeroed(1024);
    let result = whole_slice(&mut buffer, 5, &file);
    assert_eq!(result, Ok(Report { length: 5, checksum: 15 }));
    let mut other = Buffer::zeroed(1024);
    assert_eq!(result, exact(&mut other, 5, &file));
    assert_eq!(buffer.len(), 1024);
    assert_eq!(&buffer.whole()[..5], &file[..]);
    assert_eq!(&buffer.whole()[5..], &[0u8; 1019][..]);
}

#[test]
fn every_strategy_reads_five_bytes() {
    let file: Vec<u8> = vec![1, 2, 3, 4, 5];
    for strategy in all() {
        let mut buffer = strategy.allocate(1024);
        assert_eq!(
            strategy.read_into(&mut buffer, file.len(), &file),
            Ok(Report { length: 5, checksum: 15 })
        );
        assert_eq!(&buffer.whole()[..5], &file[..]);
        assert_eq!(buffer.capacity(), 1024);
    }
}

#[test]
fn every_strategy_refuses_a_file_beyond_the_capacity() {
    let file: Vec<u8> = vec![3u8; 2000];
    for strategy in all() {
        let mut buffer = strategy.allocate(1000);
        let before_len = buffer.len();
        let before: Vec<u8> = buffer.whole().to_vec();
        assert_eq!(
            strategy.read_into(&mut buffer, file.len(), &file),
            Err(Failure::TooLarge)
        );
        assert_eq!(buffer.len(), before_len);
        assert_eq!(buffer.whole(), &before[..]);
        assert_eq!(buffer.capacity(), 1000);
    }
}

#[test]
fn every_strategy_refuses_one_byte_too_many() {
    let file: Vec<u8> = vec![1u8; 9];
    for strategy in all() {
        let mut buffer = strategy.allocate(8);
        assert_eq!(
            strategy.read_into(&mut buffer, file.len(), &file),
            Err(Failure::TooLarge)
        );
    }
}

#[test]
fn every_strategy_reads_a_file_that_fits_exactly() {
    let file: Vec<u8> = vec![10, 20, 30, 40, 50, 60, 70, 80];
    for strategy in all() {
        let mut buffer = strategy.allocate(8);
        assert_eq!(
            strategy.read_into(&mut buffer, file.len(), &file),
            Ok(Report { length: 8, checksum: 360 })
        );
        assert_eq!(buffer.whole(), &file[..]);
    }
}

#[test]
fn every_strategy_reads_an_empty_file() {
    for strategy in all() {
        let mut buffer = strategy.allocate(4);
        assert_eq!(
            strategy.read_into(&mut buffer, 0, &[]),
            Ok(Report { length: 0, checksum: 0 })
        );
        let mut none = strategy.allocate(0);
        assert_eq!(
            strategy.read_into(&mut none, 0, &[]),
            Ok(Report { length: 0, checksum: 0 })
        );
    }
}

#[test]
fn all_strategies_report_the_same() {
    let mut file: Vec<u8> = Vec::new();
    for i in 0..1000usize {
        file.push((i % 251) as u8);
    }
    let expected: usize = file.iter().map(|byte| *byte as usize).sum();
    for strategy in all() {
        let mut buffer = strategy.allocate(4096);
        assert_eq!(
            strategy.read_into(&mut buffer, file.len(), &file),
            Ok(Report { length: 1000, checksum: expected })
        );
    }
}

#[test]
fn a_strategy_reports_the_same_on_a_used_buffer() {
    let long: Vec<u8> = vec![9, 9, 9, 9, 9, 9];
    let short: Vec<u8> = vec![1, 2, 3];
    for strategy in all() {
        let mut buffer = strategy.allocate(8);
        assert_eq!(
            strategy.read_into(&mut buffer, long.len(), &long),
            Ok(Report { length: 6, checksum: 54 })
        );
        assert_eq!(
            strategy.read_into(&mut buffer, short.len(), &short),
            Ok(Report { length: 3, checksum: 6 })
        );
        assert_eq!(
            strategy.read_into(&mut buffer, long.len(), &long),
            Ok(Report { length: 6, checksum: 54 })
        );
    }
}

#[test]
fn bytes_behind_the_file_are_not_zeroed_again() {
    let long: Vec<u8> = vec![9, 9, 9, 9, 9, 9];
    let short: Vec<u8> = vec![1, 2, 3];
    for strategy in [
        Strategy::Exact,
        Strategy::ExactSlice,
        Strategy::ExactSliceHideBackingSlice,
        Strategy::WholeSlice,
    ] {
        let mut buffer = strategy.allocate(8);
        assert!(strategy.read_into(&mut buffer, long.len(), &long).is_ok());
        assert!(strategy.read_into(&mut buffer, short.len(), &short).is_ok());
        assert_eq!(buffer.whole(), &[1u8, 2, 3, 9, 9, 9, 0, 0][..]);
        assert_eq!(buffer.initialized(), 8);
    }
}

#[test]
fn naive_clears_and_appends() {
    let mut buffer = Buffer::reserved(8);
    assert_eq!(naive(&mut buffer, 4, &[1, 2, 3, 4]), Ok(Report { length: 4, checksum: 10 }));
    assert_eq!(buffer.as_slice(), &[1u8, 2, 3, 4][..]);
    assert_eq!(naive(&mut buffer, 2, &[5, 6]), Ok(Report { length: 2, checksum: 11 }));
    assert_eq!(buffer.as_slice(), &[5u8, 6][..]);
    assert_eq!(buffer.len(), 2);
}

#[test]
fn naive_reads_past_the_declared_length_but_sums_within_it() {
    let mut buffer = Buffer::reserved(8);
    assert_eq!(
        naive(&mut buffer, 2, &[1, 2, 3, 4]),
        Ok(Report { length: 2, checksum: 3 })
    );
    assert_eq!(buffer.as_slice(), &[1u8, 2, 3, 4][..]);
    assert_eq!(
        naive(&mut buffer, 3, &[1, 2, 3, 4, 5, 6, 7, 8, 9, 10]),
        Ok(Report { length: 3, checksum: 6 })
    );
    assert_eq!(buffer.as_slice(), &[1u8, 2, 3, 4, 5, 6, 7, 8][..]);
}

#[test]
fn naive_and_take_sum_what_a_short_file_delivers() {
    let mut buffer = Buffer::reserved(8);
    assert_eq!(naive(&mut buffer, 5, &[1, 2, 3]), Ok(Report { length: 5, checksum: 6 }));
    assert_eq!(buffer.as_slice(), &[1u8, 2, 3][..]);
    assert_eq!(take(&mut buffer, 5, &[1, 2, 3]), Ok(Report { length: 5, checksum: 6 }));
    assert_eq!(buffer.as_slice(), &[1u8, 2, 3][..]);
}

#[test]
fn take_reads_no_further_than_the_declared_length() {
    let mut buffer = Buffer::reserved(8);
    assert_eq!(take(&mut buffer, 2, &[1, 2, 3, 4]), Ok(Report { length: 2, checksum: 3 }));
    assert_eq!(buffer.as_slice(), &[1u8, 2][..]);
    assert_eq!(buffer.initialized(), 2);
}

#[test]
fn exact_strategies_fail_on_a_short_file() {
    let file: Vec<u8> = vec![1, 2, 3];
    let mut buffer = Buffer::zeroed(8);
    assert_eq!(exact(&mut buffer, 4, &file), Err(Failure::ShortRead));
    assert_eq!(buffer.len(), 4);
    assert_eq!(buffer.whole(), &[0u8; 8][..]);
    let mut buffer = Buffer::zeroed(8);
    assert_eq!(exact_slice(&mut buffer, 4, &file), Err(Failure::ShortRead));
    assert_eq!(buffer.len(), 8);
    assert_eq!(buffer.whole(), &[0u8; 8][..]);
    let mut buffer = Buffer::zeroed(8);
    assert_eq!(
        exact_slice_hide_backing_slice(&mut buffer, 4, &file),
        Err(Failure::ShortRead)
    );
    assert_eq!(buffer.len(), 8);
    assert_eq!(buffer.whole(), &[0u8; 8][..]);
}

#[test]
fn exact_strategies_read_only_the_declared_length() {
    let file: Vec<u8> = vec![1, 2, 3, 4, 5];
    let mut buffer = Buffer::zeroed(8);
    assert_eq!(exact(&mut buffer, 2, &file), Ok(Report { length: 2, checksum: 3 }));
    assert_eq!(buffer.whole(), &[1u8, 2, 0, 0, 0, 0, 0, 0][..]);
    let mut buffer = Buffer::zeroed(8);
    assert_eq!(exact_slice(&mut buffer, 2, &file), Ok(Report { length: 2, checksum: 3 }));
    assert_eq!(buffer.whole(), &[1u8, 2, 0, 0, 0, 0, 0, 0][..]);
    let mut buffer = Buffer::zeroed(8);
    assert_eq!(
        exact_slice_hide_backing_slice(&mut buffer, 2, &file),
        Ok(Report { length: 2, checksum: 3 })
    );
    assert_eq!(buffer.whole(), &[1u8, 2, 0, 0, 0, 0, 0, 0][..]);
}

#[test]
fn whole_slice_fails_when_the_count_differs() {
    let mut buffer = Buffer::zeroed(8);
    assert_eq!(whole_slice(&mut buffer, 4, &[1, 2, 3]), Err(Failure::LengthMismatch));
    assert_eq!(buffer.whole(), &[1u8, 2, 3, 0, 0, 0, 0, 0][..]);
    let mut buffer = Buffer::zeroed(8);
    assert_eq!(whole_slice(&mut buffer, 2, &[1, 2, 3]), Err(Failure::LengthMismatch));
    let mut buffer = Buffer::zeroed(4);
    assert_eq!(
        whole_slice(&mut buffer, 3, &[1, 2, 3, 4, 5, 6]),
        Err(Failure::LengthMismatch)
    );
    let mut buffer = Buffer::zeroed(4);
    assert_eq!(
        whole_slice(&mut buffer, 4, &[1, 2, 3, 4, 5, 6]),
        Ok(Report { length: 4, checksum: 10 })
    );
}
