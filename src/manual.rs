//! Adapts an external iteration handle that yields `(state, item)` pairs into
//! an input source.
use vstd::prelude::*;

use crate::source::Pulled;

verus! {

/// The external handle yielded a value that is not a `(state, item)` pair:
/// its builder breaks its contract, and the flow must stop.
#[derive(Clone, Copy, Debug, PartialEq, Eq, Structural)]
pub struct MalformedYield;

/// Keeps the state that came with the last item handed out, so that a
/// snapshot describes the position just after that item.
#[derive(Debug)]
pub struct ManualInput<S> {
    last_state: S,
}

impl<S> ManualInput<S> {
    pub closed spec fn last_state_spec(&self) -> S {
        self.last_state
    }

    /// An adapter that starts from `resume_state`, or from `none` on a fresh
    /// run, so that a snapshot taken before any item is still valid.
    pub fn new(resume_state: Option<S>, none: S) -> (r: ManualInput<S>)
        ensures
            r.last_state_spec() == match resume_state {
                Some(s) => s,
                None => none,
            },
    {
        let last_state = match resume_state {
            Some(s) => s,
            None => none,
        };
        ManualInput { last_state }
    }

    /// Takes what one step of the external handle produced: `None` inside an
    /// item stands for a value that does not decompose into a pair. The state
    /// of a pair is kept; its item is handed on.
    pub fn next<T>(&mut self, raw: Pulled<Option<(S, T)>>) -> (r: Result<Pulled<T>, MalformedYield>)
        ensures
            match raw {
                Pulled::Pending => r == Ok::<Pulled<T>, MalformedYield>(Pulled::Pending)
                    && final(self).last_state_spec() == old(self).last_state_spec(),
                Pulled::Done => r == Ok::<Pulled<T>, MalformedYield>(Pulled::Done)
                    && final(self).last_state_spec() == old(self).last_state_spec(),
                Pulled::Item(Some((s, t))) => r == Ok::<Pulled<T>, MalformedYield>(Pulled::Item(t))
                    && final(self).last_state_spec() == s,
                Pulled::Item(None) => r == Err::<Pulled<T>, MalformedYield>(MalformedYield)
                    && final(self).last_state_spec() == old(self).last_state_spec(),
            },
    {
        match raw {
            Pulled::Pending => Ok(Pulled::Pending),
            Pulled::Done => Ok(Pulled::Done),
            Pulled::Item(Some((s, t))) => {
                self.last_state = s;
                Ok(Pulled::Item(t))
            },
            Pulled::Item(None) => Err(MalformedYield),
        }
    }

    /// The state that came with the last item handed out.
    pub fn last_state(&self) -> (r: &S)
        ensures
            *r == self.last_state_spec(),
    {
        &self.last_state
    }
}

} // verus!
