//! The per-epoch pull / advance / snapshot control loop of one input flow.
use vstd::prelude::*;

use crate::model::{Change, FlowKey, KChange, ResumeEpoch, StateBytes, StateKey, StepId, upsert_record};
use crate::source::{InputReader, Pulled};

verus! {

/// What a scheduling tick observed.
#[derive(Clone, Copy, Debug, PartialEq, Eq, Structural)]
pub enum Event {
    /// The source was not polled: downstream is still behind the current
    /// epoch, or the flow is already terminal.
    Held,
    /// The source was polled and had nothing ready.
    Pending,
    /// The source was polled and yielded one item.
    Item,
    /// The source was polled and reported end of input.
    Done,
}

/// One record put on the data output or on the change output, by epoch.
#[derive(Clone, Copy, Debug, PartialEq, Eq, Structural)]
pub enum Record {
    Data(u64),
    Change(u64),
}

impl Record {
    pub open spec fn epoch(self) -> u64 {
        match self {
            Record::Data(e) => e,
            Record::Change(e) => e,
        }
    }
}

/// The event that a pull result stands for.
pub open spec fn event_of<T>(p: Pulled<T>) -> Event {
    match p {
        Pulled::Pending => Event::Pending,
        Pulled::Done => Event::Done,
        Pulled::Item(_) => Event::Item,
    }
}

/// The item that a pull result carries.
pub open spec fn item_of<T>(p: Pulled<T>) -> Option<T> {
    match p {
        Pulled::Item(x) => Some(x),
        _ => None,
    }
}

/// The flow's epoch after one tick: `None` once the flow is terminal.
pub open spec fn step(s: Option<u64>, ev: Event) -> Option<u64> {
    match s {
        None => None,
        Some(e) => match ev {
            Event::Held => Some(e),
            Event::Pending => Some(e),
            Event::Item => Some((e + 1) as u64),
            Event::Done => None,
        },
    }
}

/// The records that one tick emits: the item, then the end-of-epoch change
/// record, both at the current epoch.
pub open spec fn tick_records(s: Option<u64>, ev: Event) -> Seq<Record> {
    match s {
        None => seq![],
        Some(e) => match ev {
            Event::Item => seq![Record::Data(e), Record::Change(e)],
            Event::Done => seq![Record::Change(e)],
            _ => seq![],
        },
    }
}

/// Permission, and present logical time, to emit on one output.
#[derive(Clone, Copy, Debug, PartialEq, Eq, Structural)]
pub struct Capability {
    pub time: u64,
}

impl Capability {
    pub fn time(&self) -> (r: u64)
        ensures
            r == self.time,
    {
        self.time
    }

    /// The same permission at a later time.
    pub fn delayed(&self, time: u64) -> (r: Capability)
        requires
            self.time <= time,
        ensures
            r.time == time,
    {
        Capability { time }
    }
}

/// What one tick of the coordinator produced.
#[derive(Debug)]
pub struct TickOutput<T> {
    /// What the tick observed of the source.
    pub event: Event,
    /// The epoch at which the records below are emitted.
    pub epoch: u64,
    /// The item to emit on the data output.
    pub data: Option<T>,
    /// The record to emit on the change output, after the item.
    pub change: Option<KChange>,
    /// Whether the coordinator asks to be scheduled again.
    pub rearm: bool,
}

impl<T> TickOutput<T> {
    /// The records of this tick, in order of emission.
    pub open spec fn records(&self) -> Seq<Record> {
        let d = if self.data is Some { seq![Record::Data(self.epoch)] } else { seq![] };
        let c = if self.change is Some { seq![Record::Change(self.epoch)] } else { seq![] };
        d + c
    }
}

/// Drives one input flow one epoch at a time: it polls its source only when
/// downstream has caught up with the present epoch, and emits a snapshot of
/// the source at every epoch boundary.
#[derive(Debug)]
pub struct EpochCoordinator {
    flow_key: FlowKey,
    /// The data and change capabilities, or `None` once terminal.
    caps: Option<(Capability, Capability)>,
}

impl EpochCoordinator {
    /// The data and change capabilities, `None` once the flow is terminal.
    pub closed spec fn caps_spec(&self) -> Option<(Capability, Capability)> {
        self.caps
    }

    #[verifier::type_invariant]
    spec fn caps_in_lock_step(&self) -> bool {
        self.wf()
    }

    /// The two capabilities always carry equal timestamps.
    pub open spec fn wf(&self) -> bool {
        match self.caps_spec() {
            Some((o, c)) => o.time == c.time,
            None => true,
        }
    }

    /// The present epoch, or `None` once the flow is terminal.
    pub open spec fn state(&self) -> Option<u64> {
        match self.caps_spec() {
            Some((o, _)) => Some(o.time),
            None => None,
        }
    }

    pub closed spec fn key(&self) -> FlowKey {
        self.flow_key
    }

    /// The present epoch has a successor.
    pub open spec fn can_advance(&self) -> bool {
        match self.state() {
            Some(e) => e < u64::MAX,
            None => true,
        }
    }

    /// A coordinator for `flow_key` whose capabilities start at `start_at`.
    pub fn new(flow_key: FlowKey, start_at: ResumeEpoch) -> (r: EpochCoordinator)
        ensures
            r.wf(),
            r.state() == Some(start_at.0),
            r.key() == flow_key,
    {
        let init = Capability { time: 0 };
        let output_cap = init.delayed(start_at.0);
        let change_cap = init.delayed(start_at.0);
        EpochCoordinator { flow_key, caps: Some((output_cap, change_cap)) }
    }

    /// The present epoch, or `None` once the flow is terminal.
    pub fn epoch(&self) -> (r: Option<u64>)
        ensures
            r == self.state(),
    {
        match &self.caps {
            Some((o, _)) => Some(o.time()),
            None => None,
        }
    }

    pub fn flow_key(&self) -> (r: &FlowKey)
        ensures
            *r == self.key(),
    {
        &self.flow_key
    }

    /// The two capabilities, `None` once the flow is terminal. In every
    /// state a coordinator can reach, they carry equal timestamps.
    pub fn capabilities(&self) -> (r: Option<(Capability, Capability)>)
        ensures
            r == self.caps_spec(),
            self.wf(),
            r matches Some((o, x)) ==> o.time == x.time,
    {
        proof {
            use_type_invariant(self);
        }
        self.caps
    }

    /// Whether a tick polls the source: only while the flow is live and
    /// downstream has caught up with the present epoch.
    pub fn should_poll(&self, probe_less_than: bool) -> (r: bool)
        ensures
            r == (self.state() is Some && !probe_less_than),
    {
        self.caps.is_some() && !probe_less_than
    }

    /// Takes the result of the one poll of a tick: an item moves both
    /// capabilities on by one epoch, `Done` makes the flow terminal, and
    /// `Pending` keeps the epoch. Returns what was observed and the item to
    /// emit at the epoch that was current.
    pub fn on_pulled<T>(&mut self, pulled: Pulled<T>) -> (r: (Event, Option<T>))
        requires
            old(self).can_advance(),
            old(self).state() is Some,
        ensures
            r.0 == event_of(pulled),
            r.1 == item_of(pulled),
            final(self).wf(),
            final(self).key() == old(self).key(),
            final(self).state() == step(old(self).state(), r.0),
    {
        proof {
            use_type_invariant(&*self);
        }
        let (output_cap, change_cap) = self.caps.unwrap();
        match pulled {
            Pulled::Pending => (Event::Pending, None),
            Pulled::Done => {
                self.caps = None;
                (Event::Done, None)
            },
            Pulled::Item(x) => {
                let next_epoch = output_cap.time() + 1;
                self.caps = Some((output_cap.delayed(next_epoch), change_cap.delayed(next_epoch)));
                (Event::Item, Some(x))
            },
        }
    }

    /// The change record that carries `snapshot` for this flow.
    pub fn change_record(&self, snapshot: StateBytes) -> (r: KChange)
        ensures
            r.0 == self.key(),
            r.1 == Change::Upsert(snapshot),
    {
        upsert_record(&self.flow_key, snapshot)
    }

    /// Runs one scheduling tick. `probe_less_than` tells whether downstream
    /// still holds work from before the present epoch; if so, or if the flow is
    /// terminal, the source is left alone. Otherwise it is polled once, the
    /// item (if any) is emitted, a snapshot is emitted when the epoch ends, and
    /// the epoch advances by one after an item, or the flow ends after `Done`.
    /// A source driven from outside the library takes the same steps through
    /// `should_poll`, `on_pulled` and `change_record`.
    pub fn tick<T, R: InputReader<T>>(&mut self, reader: &mut R, probe_less_than: bool) -> (r:
        TickOutput<T>)
        requires
            old(self).can_advance(),
        ensures
            final(self).wf(),
            final(self).key() == old(self).key(),
            final(self).state() == step(old(self).state(), r.event),
            r.records() == tick_records(old(self).state(), r.event),
            (r.event == Event::Held) == (old(self).state() is None || probe_less_than),
            r.event == Event::Held ==> *final(reader) == *old(reader),
            r.event != Event::Held ==> r.event == event_of(old(reader).next_result()) && r.data
                == item_of(old(reader).next_result()) && old(reader).next_state(&*final(reader)),
            old(self).state() matches Some(e) ==> r.epoch == e,
            r.change matches Some(k) ==> (k.0 == old(self).key() && (k.1 matches Change::Upsert(s)
                && s@ == final(reader).snapshot_view())),
            r.rearm == (final(self).state() is Some),
    {
        proof {
            use_type_invariant(&*self);
        }
        let epoch = match self.epoch() {
            Some(e) => e,
            None => {
                return TickOutput { event: Event::Held, epoch: 0, data: None, change: None, rearm: false };
            },
        };
        if !self.should_poll(probe_less_than) {
            return TickOutput { event: Event::Held, epoch, data: None, change: None, rearm: true };
        }
        let (event, data) = self.on_pulled(reader.next());
        let change = if event == Event::Item || event == Event::Done {
            Some(self.change_record(reader.snapshot()))
        } else {
            None
        };
        let rearm = self.caps.is_some();
        TickOutput { event, epoch, data, change, rearm }
    }
}

/// Chooses deterministic epochs: the epoch advances by exactly one after each
/// item. Every worker must then see exactly the same number of items, or the
/// dataflow never reaches a common frontier and stalls.
#[derive(Clone, Copy, Debug, PartialEq, Eq, Structural)]
pub struct TestingEpochConfig {}

impl TestingEpochConfig {
    pub fn new() -> (r: TestingEpochConfig)
        ensures
            r == (TestingEpochConfig {}),
    {
        TestingEpochConfig {}
    }

    /// The coordinator of the flow `(step_id, state_key)`, starting at
    /// `start_at`.
    pub fn build(&self, step_id: StepId, state_key: StateKey, start_at: ResumeEpoch) -> (r:
        EpochCoordinator)
        ensures
            r.wf(),
            r.state() == Some(start_at.0),
            r.key() == FlowKey(step_id, state_key),
    {
        EpochCoordinator::new(FlowKey(step_id, state_key), start_at)
    }
}

} // verus!
