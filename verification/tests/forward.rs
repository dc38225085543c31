use export_bridge::bridge::State;
use export_bridge::error::ErrorKind;
use export_bridge::forward::{forward, Delivery, Ending, Outcome};

fn abc() -> Vec<Vec<u8>> {
    vec![b"alpha;".to_vec(), b"beta;".to_vec(), b"gamma;".to_vec()]
}

#[test]
fn three_chunks_arrive_in_order() {
    let delivery = forward(&abc(), Ending::EndOfData, usize::MAX);
    assert_eq!(
        delivery,
        Delivery {
            body: b"alpha;beta;gamma;".to_vec(),
            written: 3,
            outcome: Outcome::Completed,
            state: State::Closed,
        }
    );
}

#[test]
fn body_is_not_a_reordering() {
    let delivery = forward(&vec![vec![2, 2], vec![1]], Ending::EndOfData, 2);
    assert_eq!(delivery.body, vec![2, 2, 1]);
    assert_ne!(delivery.body, vec![1, 2, 2]);
}

#[test]
fn failure_after_two_chunks_leaves_exactly_those() {
    let delivery = forward(&vec![b"A".to_vec(), b"B".to_vec()], Ending::Failed, usize::MAX);
    assert_eq!(
        delivery,
        Delivery {
            body: b"AB".to_vec(),
            written: 2,
            outcome: Outcome::Truncated(ErrorKind::StreamTerminatedEarly),
            state: State::Closed,
        }
    );
}

#[test]
fn failure_before_any_chunk_leaves_an_empty_body() {
    let delivery = forward(&vec![], Ending::Failed, usize::MAX);
    assert_eq!(
        delivery,
        Delivery {
            body: vec![],
            written: 0,
            outcome: Outcome::Truncated(ErrorKind::StreamTerminatedEarly),
            state: State::Closed,
        }
    );
}

#[test]
fn empty_export_completes_with_an_empty_body() {
    let delivery = forward(&vec![], Ending::EndOfData, 0);
    assert_eq!(
        delivery,
        Delivery { body: vec![], written: 0, outcome: Outcome::Completed, state: State::Closed }
    );
}

#[test]
fn client_gone_at_once_gets_nothing() {
    let delivery = forward(&abc(), Ending::EndOfData, 0);
    assert_eq!(
        delivery,
        Delivery { body: vec![], written: 0, outcome: Outcome::Disconnected, state: State::Closed }
    );
}

#[test]
fn client_gone_after_two_writes_gets_two_chunks() {
    let delivery = forward(&abc(), Ending::EndOfData, 2);
    assert_eq!(
        delivery,
        Delivery {
            body: b"alpha;beta;".to_vec(),
            written: 2,
            outcome: Outcome::Disconnected,
            state: State::Closed,
        }
    );
}

#[test]
fn client_gone_hides_a_later_stream_failure() {
    let delivery = forward(&abc(), Ending::Failed, 1);
    assert_eq!(delivery.outcome, Outcome::Disconnected);
    assert_eq!(delivery.body, b"alpha;".to_vec());
}

#[test]
fn sink_that_takes_exactly_every_chunk_completes() {
    let delivery = forward(&abc(), Ending::EndOfData, 3);
    assert_eq!(delivery.outcome, Outcome::Completed);
    assert_eq!(delivery.written, 3);
    assert_eq!(delivery.body, b"alpha;beta;gamma;".to_vec());
}

#[test]
fn empty_chunks_count_as_writes() {
    let delivery = forward(&vec![vec![], vec![7], vec![]], Ending::EndOfData, 2);
    assert_eq!(delivery.body, vec![7]);
    assert_eq!(delivery.written, 2);
    assert_eq!(delivery.outcome, Outcome::Disconnected);
}

#[test]
fn many_chunks_are_concatenated() {
    let chunks: Vec<Vec<u8>> = (0..200u8).map(|i| vec![i, i]).collect();
    let expected: Vec<u8> = (0..200u8).flat_map(|i| [i, i]).collect();
    let delivery = forward(&chunks, Ending::EndOfData, 1000);
    assert_eq!(delivery.body, expected);
    assert_eq!(delivery.written, 200);
    assert_eq!(delivery.outcome, Outcome::Completed);
}

#[test]
fn chunks_are_left_untouched() {
    let chunks = abc();
    let _ = forward(&chunks, Ending::EndOfData, 3);
    assert_eq!(chunks, abc());
}
