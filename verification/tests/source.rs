//! Behaviour of the sample source state machine on scripted backends.

use onmi::{FetchOutcome, Symphonia};

fn failures(n: usize) -> Vec<FetchOutcome> {
    let mut steps = Vec::new();
    for _ in 0..n {
        steps.push(FetchOutcome::ReadFailure);
    }
    steps
}

#[test]
fn retry_succeeds_within_bound() {
    for n in 0..=3 {
        let mut steps = failures(n);
        steps.push(FetchOutcome::Packet { ts: 0, decoded: Some(vec![7, 8, 9]) });
        let mut src = Symphonia::scripted(steps, None, 44100);
        assert_eq!(src.next_packet(), Some(vec![7, 8, 9]));
        assert!(!src.is_finished());
    }
}

#[test]
fn retry_exhaustion_finishes() {
    let mut steps = failures(4);
    steps.push(FetchOutcome::Packet { ts: 0, decoded: Some(vec![7, 8, 9]) });
    let mut src = Symphonia::scripted(steps, None, 44100);
    assert_eq!(src.next_packet(), None);
    assert!(src.is_finished());
    assert_eq!(src.next_packet(), None);
}

#[test]
fn decode_failures_are_retried() {
    let steps = vec![
        FetchOutcome::Packet { ts: 0, decoded: None },
        FetchOutcome::Packet { ts: 10, decoded: None },
        FetchOutcome::Packet { ts: 20, decoded: Some(vec![1, 2]) },
    ];
    let mut src = Symphonia::scripted(steps, Some(60000), 44100);
    assert_eq!(src.next_packet(), Some(vec![1, 2]));
    assert_eq!(src.elapsed_millis(), 20);
}

#[test]
fn end_of_input_near_duration_finishes() {
    let steps = vec![FetchOutcome::EndOfInput];
    let mut src = Symphonia::scripted(steps, Some(500), 44100);
    assert_eq!(src.next_packet(), None);
    assert!(src.is_finished());
}

#[test]
fn end_of_input_far_from_duration_is_retried() {
    let steps = vec![
        FetchOutcome::EndOfInput,
        FetchOutcome::EndOfInput,
        FetchOutcome::Packet { ts: 5, decoded: Some(vec![3, 4]) },
    ];
    let mut src = Symphonia::scripted(steps, Some(10000), 44100);
    assert_eq!(src.next_packet(), Some(vec![3, 4]));
    assert!(!src.is_finished());
}

#[test]
fn end_of_input_with_unknown_duration_finishes() {
    let steps = vec![FetchOutcome::EndOfInput];
    let mut src = Symphonia::scripted(steps, None, 44100);
    assert_eq!(src.next_packet(), None);
    assert!(src.is_finished());
}

#[test]
fn packet_far_past_duration_finishes() {
    let steps = vec![FetchOutcome::Packet { ts: 2500, decoded: Some(vec![1]) }];
    let mut src = Symphonia::scripted(steps, Some(1000), 44100);
    assert_eq!(src.next_packet(), None);
    assert!(src.is_finished());
    assert_eq!(src.elapsed_millis(), 0);
}

#[test]
fn packet_within_tolerance_is_accepted() {
    let steps = vec![FetchOutcome::Packet { ts: 1800, decoded: Some(vec![5]) }];
    let mut src = Symphonia::scripted(steps, Some(1000), 44100);
    assert_eq!(src.next_packet(), Some(vec![5]));
    assert_eq!(src.elapsed_millis(), 1800);
}

#[test]
fn next_sample_walks_packets_in_order() {
    let steps = vec![
        FetchOutcome::Packet { ts: 0, decoded: Some(vec![1, 2]) },
        FetchOutcome::Packet { ts: 10, decoded: Some(vec![3]) },
    ];
    let mut src = Symphonia::scripted(steps, Some(60000), 44100);
    assert_eq!(src.next_sample(), Some(1));
    assert_eq!(src.next_sample(), Some(2));
    assert_eq!(src.next_sample(), Some(3));
    assert_eq!(src.next_sample(), None);
    assert!(src.is_finished());
}

#[test]
fn seek_past_duration_finishes_without_physical_seek() {
    let steps = vec![FetchOutcome::Packet { ts: 0, decoded: Some(vec![1]) }];
    let mut src = Symphonia::scripted(steps, Some(2000), 44100);
    src.seek(2001);
    assert!(src.is_finished());
    assert_eq!(src.elapsed_millis(), 0);
    assert_eq!(src.next_sample(), None);
}

#[test]
fn seek_within_duration_sets_elapsed() {
    let steps = vec![FetchOutcome::Packet { ts: 0, decoded: Some(vec![1]) }];
    let mut src = Symphonia::scripted(steps, Some(2000), 44100);
    src.seek(1500);
    assert!(!src.is_finished());
    assert_eq!(src.elapsed_millis(), 1500);
}

#[test]
fn seek_with_unknown_duration_never_short_circuits() {
    let mut src = Symphonia::scripted(Vec::new(), None, 44100);
    src.seek(90000000);
    assert!(!src.is_finished());
    assert_eq!(src.elapsed_millis(), 90000000);
}

#[test]
fn scripted_reports_duration_and_rate() {
    let src = Symphonia::scripted(Vec::new(), Some(1234), 48000);
    assert_eq!(src.duration_millis(), Some(1234));
    assert_eq!(src.sample_rate(), 48000);
    let unknown = Symphonia::scripted(Vec::new(), None, 8000);
    assert_eq!(unknown.duration_millis(), None);
}

#[test]
fn empty_decoded_packet_counts_as_failure() {
    let steps = vec![
        FetchOutcome::Packet { ts: 0, decoded: Some(vec![]) },
        FetchOutcome::Packet { ts: 10, decoded: Some(vec![6]) },
    ];
    let mut src = Symphonia::scripted(steps, None, 44100);
    assert_eq!(src.next_packet(), Some(vec![6]));
}
