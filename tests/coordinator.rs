use epoch_input::coordinator::{EpochCoordinator, Event, TestingEpochConfig, TickOutput};
use epoch_input::model::{Change, FlowKey, KChange, ResumeEpoch, StateBytes, StateKey, StepId};
use epoch_input::seq_input::SeqInput;
use epoch_input::source::{InputReader, Pulled};

fn key() -> FlowKey {
    FlowKey(StepId("inp".to_string()), StateKey("0".to_string()))
}

fn position_bytes(n: u64) -> Vec<u8> {
    n.to_le_bytes().to_vec()
}

fn snapshot_of(change: &Option<KChange>) -> Vec<u8> {
    match change {
        Some(KChange(k, Change::Upsert(s))) => {
            assert_eq!(k.0 .0, "inp");
            assert_eq!(k.1 .0, "0");
            s.0.clone()
        }
        other => panic!("expected an upsert, got {:?}", other),
    }
}

#[test]
fn three_items_then_done() {
    let mut src = SeqInput::build(vec![10, 20, 30], None).unwrap();
    let mut c = TestingEpochConfig::new().build(
        StepId("inp".to_string()),
        StateKey("0".to_string()),
        ResumeEpoch(0),
    );
    let mut snapshots = Vec::new();
    for (epoch, item) in [(0u64, 10u64), (1, 20), (2, 30)] {
        let out: TickOutput<u64> = c.tick(&mut src, false);
        assert_eq!(out.event, Event::Item);
        assert_eq!(out.epoch, epoch);
        assert_eq!(out.data, Some(item));
        let snap = snapshot_of(&out.change);
        assert_eq!(snap, position_bytes(epoch + 1));
        snapshots.push(snap);
        assert!(out.rearm);
        assert_eq!(c.epoch(), Some(epoch + 1));
    }
    let out = c.tick(&mut src, false);
    assert_eq!(out.event, Event::Done);
    assert_eq!(out.epoch, 3);
    assert_eq!(out.data, None);
    assert_eq!(snapshot_of(&out.change), position_bytes(3));
    assert!(!out.rearm);
    assert_eq!(c.epoch(), None);
    assert!(c.capabilities().is_none());

    // Resuming from the epoch-2 snapshot reproduces only the last item.
    let resume = epoch_input::model::StateBytes(snapshots[1].clone());
    let mut again = SeqInput::build(vec![10, 20, 30], Some(resume)).unwrap();
    let mut c2 = EpochCoordinator::new(key(), ResumeEpoch(2));
    let out = c2.tick(&mut again, false);
    assert_eq!((out.epoch, out.data), (2, Some(30)));
    let out = c2.tick(&mut again, false);
    assert_eq!(out.event, Event::Done);
    assert_eq!(out.data, None);
}

#[test]
fn held_until_probe_clears() {
    let mut src = SeqInput::build(vec![20], None).unwrap();
    let mut c = EpochCoordinator::new(key(), ResumeEpoch(0));
    for _ in 0..3 {
        let out = c.tick(&mut src, true);
        assert_eq!(out.event, Event::Held);
        assert_eq!(out.data, None);
        assert!(out.change.is_none());
        assert!(out.rearm);
        assert_eq!(c.epoch(), Some(0));
    }
    // Nothing was pulled while held: the snapshot is still the fresh one.
    assert_eq!(src.snapshot().0, Vec::<u8>::new());
    let out = c.tick(&mut src, false);
    assert_eq!(out.event, Event::Item);
    assert_eq!((out.epoch, out.data), (0, Some(20)));
    assert_eq!(c.epoch(), Some(1));
}

#[test]
fn pending_keeps_epoch_and_emits_nothing() {
    let mut c = EpochCoordinator::new(key(), ResumeEpoch(5));
    for _ in 0..2 {
        assert!(c.should_poll(false));
        let (event, data) = c.on_pulled::<u64>(Pulled::Pending);
        assert_eq!(event, Event::Pending);
        assert_eq!(data, None);
        assert_eq!(c.epoch(), Some(5));
    }
    let (event, data) = c.on_pulled(Pulled::Item(7u64));
    assert_eq!((event, data), (Event::Item, Some(7)));
    assert_eq!(c.epoch(), Some(6));
    let caps = c.capabilities().unwrap();
    assert_eq!((caps.0.time(), caps.1.time()), (6, 6));
    let record = c.change_record(StateBytes(vec![1]));
    assert_eq!(snapshot_of(&Some(record)), vec![1]);
}

#[test]
fn probe_gates_polling() {
    let c = EpochCoordinator::new(key(), ResumeEpoch(0));
    assert!(!c.should_poll(true));
    assert!(c.should_poll(false));
}

#[test]
fn terminal_flow_stays_silent() {
    let mut c = EpochCoordinator::new(key(), ResumeEpoch(0));
    let (event, data) = c.on_pulled::<u64>(Pulled::Done);
    assert_eq!((event, data), (Event::Done, None));
    assert_eq!(c.epoch(), None);
    assert!(c.capabilities().is_none());
    assert!(!c.should_poll(false));
    let mut src = SeqInput::build(vec![1, 2], None).unwrap();
    for probe in [false, true] {
        let out = c.tick(&mut src, probe);
        assert_eq!(out.event, Event::Held);
        assert!(out.data.is_none() && out.change.is_none());
        assert!(!out.rearm);
    }
    // The source was never polled.
    assert_eq!(src.snapshot().0, Vec::<u8>::new());
}

#[test]
fn done_from_source_ends_flow() {
    let mut src = SeqInput::build(Vec::new(), None).unwrap();
    let mut c = EpochCoordinator::new(key(), ResumeEpoch(4));
    let out = c.tick(&mut src, false);
    assert_eq!(out.event, Event::Done);
    assert_eq!(out.epoch, 4);
    assert_eq!(out.data, None);
    assert_eq!(snapshot_of(&out.change), Vec::<u8>::new());
    assert!(!out.rearm);
    assert_eq!(c.epoch(), None);
}

#[test]
fn one_epoch_per_item() {
    let mut src = SeqInput::build((0..10).collect(), None).unwrap();
    let mut c = EpochCoordinator::new(key(), ResumeEpoch(100));
    let mut last = None;
    loop {
        let out = c.tick(&mut src, false);
        if out.event == Event::Done {
            assert_eq!(out.epoch, 110);
            break;
        }
        if let Some(prev) = last {
            assert_eq!(out.epoch, prev + 1);
        }
        last = Some(out.epoch);
        let caps = c.capabilities().unwrap();
        assert_eq!(caps.0.time(), caps.1.time());
        assert_eq!(caps.0.time(), out.epoch + 1);
    }
}
