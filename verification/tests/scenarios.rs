use async_stream::{AsyncStream, Next, Outcome, Receiver};

/// A computation that plays back a fixed list of driving steps.
struct Script {
    steps: Vec<(Outcome, Option<&'static str>)>,
    at: usize,
    driven: usize,
}

fn script(steps: Vec<(Outcome, Option<&'static str>)>) -> AsyncStream<&'static str, Script> {
    AsyncStream::new(Receiver::new(), Script { steps, at: 0, driven: 0 })
}

/// One driving step of a `Script`: past the end of the list it suspends
/// without a value.
fn drive(
    _rx: &mut Receiver<&'static str>,
    slot: &mut Option<&'static str>,
    script: &mut Script,
) -> Outcome {
    assert!(slot.is_none());
    script.driven += 1;
    if script.at < script.steps.len() {
        let (outcome, emitted) = script.steps[script.at];
        script.at += 1;
        *slot = emitted;
        outcome
    } else {
        Outcome::Suspended
    }
}

fn driven(stream: &mut AsyncStream<&'static str, Script>) -> usize {
    let mut seen = 0;
    let _ = stream.poll_next(|_rx, _slot, script: &mut Script| {
        seen = script.driven;
        Outcome::Suspended
    });
    seen
}

#[test]
fn two_items_then_the_end() {
    let mut stream = script(vec![
        (Outcome::Suspended, Some("a")),
        (Outcome::Suspended, Some("b")),
        (Outcome::Finished, None),
    ]);
    assert_eq!(stream.poll_next(drive), Next::Item("a"));
    assert!(!stream.is_terminated());
    assert_eq!(stream.poll_next(drive), Next::Item("b"));
    assert!(!stream.is_terminated());
    assert_eq!(stream.poll_next(drive), Next::End);
    assert!(stream.is_terminated());
    assert_eq!(stream.poll_next(drive), Next::End);
    assert!(stream.is_terminated());
}

#[test]
fn immediate_completion_ends_at_once() {
    let mut stream = script(vec![(Outcome::Finished, None)]);
    assert!(!stream.is_terminated());
    assert_eq!(stream.poll_next(drive), Next::End);
    assert!(stream.is_terminated());
    assert_eq!(stream.size_hint(), (0, Some(0)));
}

#[test]
fn idle_computation_is_never_ready() {
    let mut stream = script(vec![]);
    for _ in 0..100 {
        assert_eq!(stream.poll_next(drive), Next::NotReady);
        assert!(!stream.is_terminated());
        assert_eq!(stream.size_hint(), (0, None));
    }
}

#[test]
fn item_and_completion_in_one_step() {
    let mut stream = script(vec![(Outcome::Finished, Some("last"))]);
    assert_eq!(stream.poll_next(drive), Next::Item("last"));
    assert!(stream.is_terminated());
    assert_eq!(stream.size_hint(), (0, Some(0)));
    assert_eq!(stream.poll_next(drive), Next::End);
    assert!(stream.is_terminated());
}

#[test]
fn suspension_in_between_items() {
    let mut stream = script(vec![
        (Outcome::Suspended, None),
        (Outcome::Suspended, Some("a")),
        (Outcome::Suspended, None),
        (Outcome::Suspended, None),
        (Outcome::Finished, Some("b")),
    ]);
    assert_eq!(stream.poll_next(drive), Next::NotReady);
    assert_eq!(stream.poll_next(drive), Next::Item("a"));
    assert_eq!(stream.poll_next(drive), Next::NotReady);
    assert_eq!(stream.poll_next(drive), Next::NotReady);
    assert!(!stream.is_terminated());
    assert_eq!(stream.poll_next(drive), Next::Item("b"));
    assert_eq!(stream.poll_next(drive), Next::End);
}

#[test]
fn terminated_adapter_drives_nothing() {
    let mut stream = script(vec![(Outcome::Suspended, Some("a")), (Outcome::Finished, None)]);
    assert_eq!(stream.poll_next(drive), Next::Item("a"));
    assert_eq!(stream.poll_next(drive), Next::End);
    let mut calls = 0;
    for _ in 0..10 {
        let next = stream.poll_next(|_rx, slot, _script| {
            calls += 1;
            *slot = Some("late");
            Outcome::Suspended
        });
        assert_eq!(next, Next::End);
        assert!(stream.is_terminated());
        assert_eq!(stream.size_hint(), (0, Some(0)));
    }
    assert_eq!(calls, 0);
}

#[test]
fn each_request_drives_exactly_once() {
    let mut stream = script(vec![
        (Outcome::Suspended, Some("a")),
        (Outcome::Suspended, None),
        (Outcome::Suspended, Some("b")),
    ]);
    assert_eq!(stream.poll_next(drive), Next::Item("a"));
    assert_eq!(stream.poll_next(drive), Next::NotReady);
    assert_eq!(stream.poll_next(drive), Next::Item("b"));
    assert_eq!(driven(&mut stream), 3);
}

#[test]
fn items_keep_their_order() {
    let words = vec!["one", "two", "three", "four", "five"];
    let mut steps: Vec<(Outcome, Option<&'static str>)> = Vec::new();
    for word in &words {
        steps.push((Outcome::Suspended, Some(*word)));
        steps.push((Outcome::Suspended, None));
    }
    steps.push((Outcome::Finished, None));
    let requests = steps.len();
    let mut stream = script(steps);
    let mut seen = Vec::new();
    for _ in 0..requests {
        if let Next::Item(word) = stream.poll_next(drive) {
            seen.push(word);
        }
    }
    assert_eq!(seen, words);
    assert!(seen.len() <= requests);
    assert!(stream.is_terminated());
}

#[test]
fn slot_is_fresh_for_every_request() {
    let mut stream: AsyncStream<u32, u32> = AsyncStream::new(Receiver::new(), 0);
    for round in 0..5u32 {
        let next = stream.poll_next(|_rx, slot, count| {
            assert!(slot.is_none());
            assert_eq!(*count, round);
            *count += 1;
            if round % 2 == 0 {
                *slot = Some(round * 10);
            }
            Outcome::Suspended
        });
        if round % 2 == 0 {
            assert_eq!(next, Next::Item(round * 10));
        } else {
            assert_eq!(next, Next::NotReady);
        }
    }
}
