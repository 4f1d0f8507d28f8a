use epoch_input::manual::{MalformedYield, ManualInput};
use epoch_input::model::{upsert_record, Change, FlowKey, StateBytes, StateKey, StepId};
use epoch_input::seq_input::{BadResumeState, SeqInput};
use epoch_input::source::{InputReader, Pulled};

#[test]
fn manual_input_keeps_last_state() {
    let mut m: ManualInput<&str> = ManualInput::new(None, "none");
    assert_eq!(*m.last_state(), "none");
    let r = m.next(Pulled::Item(Some(("s1", 10u64))));
    assert!(matches!(r, Ok(Pulled::Item(10))));
    assert_eq!(*m.last_state(), "s1");
    let r = m.next::<u64>(Pulled::Pending);
    assert!(matches!(r, Ok(Pulled::Pending)));
    assert_eq!(*m.last_state(), "s1");
    let r = m.next::<u64>(Pulled::Done);
    assert!(matches!(r, Ok(Pulled::Done)));
    assert_eq!(*m.last_state(), "s1");
}

#[test]
fn manual_input_resumes_from_state() {
    let m: ManualInput<&str> = ManualInput::new(Some("s7"), "none");
    assert_eq!(*m.last_state(), "s7");
}

#[test]
fn manual_input_refuses_malformed_yield() {
    let mut m: ManualInput<&str> = ManualInput::new(Some("s0"), "none");
    let r = m.next::<u64>(Pulled::Item(None));
    assert_eq!(r.err(), Some(MalformedYield));
    assert_eq!(*m.last_state(), "s0");
}

#[test]
fn seq_input_round_trip() {
    let items: Vec<u64> = vec![5, 6, 7, 8];
    let mut a = SeqInput::build(items.clone(), None).unwrap();
    assert_eq!(a.snapshot().0, Vec::<u8>::new());
    assert!(matches!(a.pull(), Pulled::Item(5)));
    assert!(matches!(a.pull(), Pulled::Item(6)));
    let snap = a.snapshot();
    assert_eq!(snap.0, 2u64.to_le_bytes().to_vec());
    let mut b = SeqInput::build(items, Some(snap)).unwrap();
    let mut rest = Vec::new();
    while let Pulled::Item(x) = b.next() {
        rest.push(x);
    }
    assert_eq!(rest, vec![7, 8]);
    // After the end the snapshot stays at the last item.
    assert_eq!(b.snapshot().0, 4u64.to_le_bytes().to_vec());
    assert!(matches!(b.pull(), Pulled::Done));
}

#[test]
fn seq_input_empty_sequence() {
    let mut a = SeqInput::build(Vec::new(), None).unwrap();
    assert!(matches!(a.pull(), Pulled::Done));
    assert_eq!(a.snapshot().0, Vec::<u8>::new());
}

#[test]
fn seq_input_resume_past_end() {
    let mut a = SeqInput::build(vec![1], Some(StateBytes(9u64.to_le_bytes().to_vec()))).unwrap();
    assert!(matches!(a.pull(), Pulled::Done));
}

#[test]
fn seq_input_refuses_bad_state() {
    let r = SeqInput::build(vec![1, 2], Some(StateBytes(vec![1, 2, 3])));
    assert_eq!(r.err(), Some(BadResumeState));
}

#[test]
fn upsert_record_carries_snapshot() {
    let key = FlowKey(StepId("s".to_string()), StateKey("k".to_string()));
    let r = upsert_record(&key, StateBytes(vec![4, 2]));
    assert_eq!(r.0 .0 .0, "s");
    assert_eq!(r.0 .1 .0, "k");
    match r.1 {
        Change::Upsert(b) => assert_eq!(b.0, vec![4, 2]),
        Change::Discard => panic!("expected an upsert"),
    }
}
