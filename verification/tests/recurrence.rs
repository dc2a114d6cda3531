use memofib::graph::ZEROED_PREFIX;
use memofib::memo::{bootstrap, recurrence, Evaluation, MemoBuffer};

fn value(index: u64) -> u64 {
    bootstrap(index).expect("index inside the zeroed prefix").value
}

#[test]
fn base_cases_return_the_index() {
    assert_eq!(bootstrap(0), Some(Evaluation { value: 0, calls: 1 }));
    assert_eq!(bootstrap(1), Some(Evaluation { value: 1, calls: 1 }));
}

#[test]
fn standard_values() {
    assert_eq!(value(0), 0);
    assert_eq!(value(1), 1);
    assert_eq!(value(2), 1);
    assert_eq!(value(10), 55);
    assert_eq!(value(20), 6765);
}

#[test]
fn value_at_the_last_exact_index() {
    assert_eq!(value(93), 12200160415121876738);
}

#[test]
fn value_wraps_past_the_last_exact_index() {
    assert_eq!(value(94), 1293530146158671551);
    assert_eq!(value(94), value(93).wrapping_add(value(92)));
    assert!(value(93).checked_add(value(92)).is_none());
}

#[test]
fn value_at_the_end_of_the_prefix() {
    assert_eq!(value(199), 4845216997073187469);
}

#[test]
fn each_value_is_the_sum_of_the_two_before() {
    for n in 2..=93u64 {
        assert_eq!(Some(value(n)), value(n - 1).checked_add(value(n - 2)));
    }
}

#[test]
fn each_value_is_the_wrapping_sum_of_the_two_before() {
    for n in 2..ZEROED_PREFIX {
        assert_eq!(value(n), value(n - 1).wrapping_add(value(n - 2)));
    }
}

#[test]
fn no_cached_value_is_zero() {
    for n in 1..ZEROED_PREFIX {
        assert_ne!(value(n), 0);
    }
}

#[test]
fn same_index_same_outcome() {
    for n in [0u64, 1, 2, 50, 93, 94, 199, 200, 5000] {
        assert_eq!(bootstrap(n), bootstrap(n));
    }
}

#[test]
fn invocations_grow_linearly() {
    assert_eq!(bootstrap(2).unwrap().calls, 3);
    assert_eq!(bootstrap(10).unwrap().calls, 19);
    for n in 2..ZEROED_PREFIX {
        let calls = bootstrap(n).unwrap().calls;
        assert_eq!(calls, 2 * n - 1);
        assert!(calls <= 2 * n + 1);
    }
}

#[test]
fn index_past_the_prefix_is_not_evaluated() {
    assert!(bootstrap(ZEROED_PREFIX - 1).is_some());
    assert_eq!(bootstrap(ZEROED_PREFIX), None);
    assert_eq!(bootstrap(201), None);
    assert_eq!(bootstrap(u64::MAX), None);
}

#[test]
fn fresh_buffer_is_zeroed() {
    let buffer = MemoBuffer::zeroed();
    for i in 0..ZEROED_PREFIX {
        assert_eq!(buffer.slot(i), Some(0));
    }
    assert_eq!(buffer.slot(ZEROED_PREFIX), None);
    assert_eq!(buffer.slot(u64::MAX), None);
}

#[test]
fn recurrence_fills_the_slots_up_to_the_index() {
    let mut buffer = MemoBuffer::zeroed();
    let out = recurrence(10, &mut buffer);
    assert_eq!(out, Evaluation { value: 55, calls: 19 });
    assert_eq!(buffer.slot(0), Some(0));
    assert_eq!(buffer.slot(1), Some(0));
    let expected: [u64; 9] = [1, 2, 3, 5, 8, 13, 21, 34, 55];
    for (offset, want) in expected.iter().enumerate() {
        assert_eq!(buffer.slot(2 + offset as u64), Some(*want));
    }
    for i in 11..ZEROED_PREFIX {
        assert_eq!(buffer.slot(i), Some(0));
    }
}

#[test]
fn cached_slot_is_returned_without_recomputation() {
    let mut buffer = MemoBuffer::zeroed();
    recurrence(30, &mut buffer);
    assert_eq!(recurrence(30, &mut buffer), Evaluation { value: 832040, calls: 1 });
    assert_eq!(recurrence(12, &mut buffer), Evaluation { value: 144, calls: 1 });
    assert_eq!(buffer.slot(12), Some(144));
}

#[test]
fn later_index_reuses_what_is_cached() {
    let mut buffer = MemoBuffer::zeroed();
    recurrence(30, &mut buffer);
    let out = recurrence(32, &mut buffer);
    assert_eq!(out, Evaluation { value: 2178309, calls: 5 });
    assert_eq!(buffer.slot(31), Some(1346269));
    assert_eq!(buffer.slot(32), Some(2178309));
    assert_eq!(buffer.slot(33), Some(0));
}

#[test]
fn base_case_leaves_the_buffer_alone() {
    let mut buffer = MemoBuffer::zeroed();
    assert_eq!(recurrence(1, &mut buffer), Evaluation { value: 1, calls: 1 });
    assert_eq!(recurrence(0, &mut buffer), Evaluation { value: 0, calls: 1 });
    for i in 0..ZEROED_PREFIX {
        assert_eq!(buffer.slot(i), Some(0));
    }
}
