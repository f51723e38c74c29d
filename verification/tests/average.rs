use weevibin::average::{AverageError, Mean, RunningAverage};

fn mean_of(avg: &RunningAverage) -> f64 {
    let mean = avg.average().unwrap();
    mean.sum as f64 / mean.count as f64
}

#[test]
fn it_iterates() {
    let item_count = 5;
    let mut avg = RunningAverage::new(item_count);

    for i in 0..item_count {
        avg.add(i as u64);
    }

    let mut iteration_count = 0;
    let mut index = 0;

    while let Some(value) = avg.next() {
        assert_eq!(index as f64, value as f64);
        index += 1;
        iteration_count += 1;
    }

    assert_eq!(iteration_count, item_count);
}

#[test]
fn it_maintains_limit() {
    let item_count = 2;

    let mut avg = RunningAverage::new(item_count);
    assert_eq!(avg.len(), 0);

    avg.add(1);
    assert_eq!(avg.len(), 1);
    avg.add(1);
    assert_eq!(avg.len(), 2);
    avg.add(1);
    assert_eq!(avg.len(), 2);
}

#[test]
fn it_can_be_indexed() {
    let mut avg = RunningAverage::new(2);

    avg.add(1);
    avg.add(2);

    assert_eq!(avg.index(0).unwrap() as f64, 1f64);
    assert_eq!(avg.index(1).unwrap() as f64, 2f64);
}

#[test]
fn it_removes_from_front_when_exceeding_limit() {
    let mut avg = RunningAverage::new(2);

    avg.add(1);
    avg.add(2);
    avg.add(3);

    assert_eq!(avg.index(0).unwrap() as f64, 2f64);
    assert_eq!(avg.index(1).unwrap() as f64, 3f64);
}

#[test]
fn it_computes_average_with_fewer_items_than_limit() {
    let mut avg = RunningAverage::new(3);

    avg.add(2);
    avg.add(8);

    assert_eq!(mean_of(&avg), 5f64);
}

#[test]
fn it_computes_average_with_same_items_as_limit() {
    let mut avg = RunningAverage::new(3);

    avg.add(3);
    avg.add(4);
    avg.add(8);

    assert_eq!(mean_of(&avg), 5f64);
}

#[test]
fn it_computes_average_with_more_items_than_limit() {
    let mut avg = RunningAverage::new(3);

    avg.add(10);
    avg.add(3);
    avg.add(4);
    avg.add(8);

    assert_eq!(mean_of(&avg), 5f64);
}

#[test]
fn average_of_an_empty_window_is_an_error() {
    let avg = RunningAverage::new(3);
    assert_eq!(avg.average(), Err(AverageError::EmptyWindow));
}

#[test]
fn average_is_the_exact_fraction() {
    let mut avg = RunningAverage::new(4);
    avg.add(1);
    avg.add(2);
    assert_eq!(avg.average(), Ok(Mean { sum: 3, count: 2 }));
    avg.add(u64::MAX);
    avg.add(u64::MAX);
    assert_eq!(avg.average(), Ok(Mean { sum: 3 + 2 * (u64::MAX as u128), count: 4 }));
}

#[test]
fn index_past_the_end_is_out_of_range() {
    let mut avg = RunningAverage::new(2);
    assert_eq!(avg.index(0), Err(AverageError::OutOfRange));
    avg.add(7);
    assert_eq!(avg.index(0), Ok(7));
    assert_eq!(avg.index(1), Err(AverageError::OutOfRange));
}

#[test]
fn window_keeps_the_latest_samples_in_order() {
    let capacity = 4;
    let mut avg = RunningAverage::new(capacity);
    for sample in 0..11u64 {
        avg.add(sample * 10);
        assert!(avg.len() <= capacity);
    }
    assert_eq!(avg.len(), capacity);
    for i in 0..capacity {
        assert_eq!(avg.index(i), Ok((7 + i as u64) * 10));
    }
}

#[test]
fn window_of_capacity_zero_holds_nothing() {
    let mut avg = RunningAverage::new(0);
    avg.add(5);
    assert_eq!(avg.len(), 0);
    assert_eq!(avg.average(), Err(AverageError::EmptyWindow));
}

#[test]
fn cursor_survives_an_eviction() {
    let mut avg = RunningAverage::new(2);
    avg.add(1);
    avg.add(2);
    assert_eq!(avg.next(), Some(1));
    assert_eq!(avg.size_hint(), (1, Some(1)));
    avg.add(3);
    assert_eq!(avg.next(), Some(3));
    assert_eq!(avg.next(), None);
    assert_eq!(avg.size_hint(), (0, Some(0)));
}

#[test]
fn clone_keeps_samples_and_cursor() {
    let mut avg = RunningAverage::new(3);
    avg.add(4);
    avg.add(6);
    assert_eq!(avg.next(), Some(4));
    let mut copy = avg.clone();
    assert_eq!(copy.len(), 2);
    assert_eq!(copy.next(), Some(6));
    assert_eq!(avg.next(), Some(6));
}
