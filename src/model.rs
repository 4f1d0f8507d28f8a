//! The vocabulary shared by input sources, the epoch coordinator and the
//! recovery log writer.
use vstd::prelude::*;

verus! {

/// A logical timestamp marking a recovery-consistent boundary.
pub type Epoch = u64;

/// The epoch a run starts from: 0 for a fresh run, else read back from a
/// prior run's recovery log.
#[derive(Clone, Copy, Debug, PartialEq, Eq, Structural)]
pub struct ResumeEpoch(pub u64);

/// This worker's ordinal within the current execution.
#[derive(Clone, Copy, Debug, PartialEq, Eq, Structural)]
pub struct WorkerIndex(pub usize);

/// The number of workers in the current execution.
#[derive(Clone, Copy, Debug, PartialEq, Eq, Structural)]
pub struct WorkerCount(pub usize);

/// Identifier of an input step within the dataflow graph.
#[derive(Debug)]
pub struct StepId(pub String);

impl Clone for StepId {
    fn clone(&self) -> (r: Self)
        ensures
            r == *self,
    {
        StepId(self.0.clone())
    }
}

/// Identifier of a state partition within a step.
#[derive(Debug)]
pub struct StateKey(pub String);

impl Clone for StateKey {
    fn clone(&self) -> (r: Self)
        ensures
            r == *self,
    {
        StateKey(self.0.clone())
    }
}

/// The address of one resumable state stream. Immutable once built.
#[derive(Debug)]
pub struct FlowKey(pub StepId, pub StateKey);

impl Clone for FlowKey {
    fn clone(&self) -> (r: Self)
        ensures
            r == *self,
    {
        FlowKey(self.0.clone(), self.1.clone())
    }
}

/// An opaque serialized resumption position of an input source.
#[derive(Debug)]
pub struct StateBytes(pub Vec<u8>);

impl StateBytes {
    pub open spec fn view(&self) -> Seq<u8> {
        self.0@
    }
}

impl Clone for StateBytes {
    fn clone(&self) -> (r: Self)
        ensures
            r@ == self@,
    {
        let v = self.0.clone();
        assert(v@ =~= self.0@);
        StateBytes(v)
    }
}

/// A change to one piece of recoverable state.
#[derive(Debug)]
pub enum Change {
    /// The state exists and has this value.
    Upsert(StateBytes),
    /// The state is gone.
    Discard,
}

impl Change {
    /// Both are the same change, up to the bytes a snapshot holds.
    pub open spec fn same_as(&self, other: &Change) -> bool {
        match (self, other) {
            (Change::Upsert(a), Change::Upsert(b)) => a@ == b@,
            (Change::Discard, Change::Discard) => true,
            _ => false,
        }
    }
}

impl Clone for Change {
    fn clone(&self) -> (r: Self)
        ensures
            r.same_as(self),
    {
        match self {
            Change::Upsert(s) => Change::Upsert(s.clone()),
            Change::Discard => Change::Discard,
        }
    }
}

/// One entry of the recovery change log.
#[derive(Debug)]
pub struct KChange(pub FlowKey, pub Change);

impl Clone for KChange {
    fn clone(&self) -> (r: Self)
        ensures
            r.0 == self.0,
            r.1.same_as(&self.1),
    {
        KChange(self.0.clone(), self.1.clone())
    }
}

/// Builds the change record that carries `snapshot` for `key`.
pub fn upsert_record(key: &FlowKey, snapshot: StateBytes) -> (r: KChange)
    ensures
        r.0 == *key,
        r.1 == Change::Upsert(snapshot),
{
    KChange(key.clone(), Change::Upsert(snapshot))
}

} // verus!
