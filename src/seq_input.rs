//! An input source over a sequence held in memory, resumable at any item.
use vstd::prelude::*;

use crate::manual::ManualInput;
use crate::model::StateBytes;
use crate::source::{InputReader, Pulled};

verus! {

/// The state that comes with an item: the position after it, as eight
/// little-endian bytes.
pub open spec fn position_bytes(n: u64) -> Seq<u8> {
    seq![
        n as u8,
        (n >> 8u64) as u8,
        (n >> 16u64) as u8,
        (n >> 24u64) as u8,
        (n >> 32u64) as u8,
        (n >> 40u64) as u8,
        (n >> 48u64) as u8,
        (n >> 56u64) as u8,
    ]
}

/// The position that eight little-endian bytes hold.
pub open spec fn bytes_position(b: Seq<u8>) -> u64
    recommends
        b.len() == 8,
{
    (b[0] as u64) | ((b[1] as u64) << 8u64) | ((b[2] as u64) << 16u64) | ((b[3] as u64) << 24u64)
        | ((b[4] as u64) << 32u64) | ((b[5] as u64) << 40u64) | ((b[6] as u64) << 48u64) | ((
    b[7] as u64) << 56u64)
}

/// Where a source resumes from a saved state: the empty state of a fresh run
/// is position 0; any state but the empty one and eight bytes is refused.
pub open spec fn resume_position(b: Seq<u8>) -> Option<u64> {
    if b.len() == 0 {
        Some(0)
    } else if b.len() == 8 {
        Some(bytes_position(b))
    } else {
        None
    }
}

/// The snapshot of a source that has handed out the items before position `k`
/// since a fresh start.
pub open spec fn snapshot_at(k: u64) -> Seq<u8> {
    if k == 0 {
        Seq::empty()
    } else {
        position_bytes(k)
    }
}

/// What a source at position `p` yields until it reports `Done`.
pub open spec fn rest(items: Seq<u64>, p: u64) -> Seq<u64> {
    if p >= items.len() {
        Seq::empty()
    } else {
        items.subrange(p as int, items.len() as int)
    }
}

/// A saved state that is neither empty nor eight bytes long.
#[derive(Clone, Copy, Debug, PartialEq, Eq, Structural)]
pub struct BadResumeState;

fn encode_position(n: u64) -> (r: StateBytes)
    ensures
        r@ == position_bytes(n),
{
    let v: Vec<u8> = vec![
        n as u8,
        (n >> 8u64) as u8,
        (n >> 16u64) as u8,
        (n >> 24u64) as u8,
        (n >> 32u64) as u8,
        (n >> 40u64) as u8,
        (n >> 48u64) as u8,
        (n >> 56u64) as u8,
    ];
    assert(v@ =~= position_bytes(n));
    StateBytes(v)
}

fn decode_position(b: &StateBytes) -> (r: Result<u64, BadResumeState>)
    ensures
        match resume_position(b@) {
            Some(p) => r == Ok::<u64, BadResumeState>(p),
            None => r == Err::<u64, BadResumeState>(BadResumeState),
        },
{
    let v = &b.0;
    if v.len() == 0 {
        Ok(0)
    } else if v.len() == 8 {
        Ok((v[0] as u64) | ((v[1] as u64) << 8u64) | ((v[2] as u64) << 16u64) | ((v[3] as u64)
            << 24u64) | ((v[4] as u64) << 32u64) | ((v[5] as u64) << 40u64) | ((v[6] as u64)
            << 48u64) | ((v[7] as u64) << 56u64))
    } else {
        Err(BadResumeState)
    }
}

/// A source that hands out the items of a sequence one per pull, each with
/// the position after it as its state.
#[derive(Debug)]
pub struct SeqInput {
    items: Vec<u64>,
    pos: u64,
    reader: ManualInput<StateBytes>,
}

impl SeqInput {
    pub closed spec fn items_spec(&self) -> Seq<u64> {
        self.items@
    }

    /// The position of the next item to hand out.
    pub closed spec fn position(&self) -> u64 {
        self.pos
    }

    pub closed spec fn snapshot_bytes(&self) -> Seq<u8> {
        self.reader.last_state_spec()@
    }

    /// The snapshot resumes where the source stands.
    pub open spec fn wf(&self) -> bool {
        resume_position(self.snapshot_bytes()) == Some(self.position())
    }

    /// A source over `items` that resumes from `resume`, or starts at the
    /// first item on a fresh run.
    pub fn build(items: Vec<u64>, resume: Option<StateBytes>) -> (r: Result<SeqInput, BadResumeState>)
        ensures
            match resume {
                None => r matches Ok(s) && s.position() == 0 && s.snapshot_bytes() == Seq::<u8>::empty(),
                Some(b) => match resume_position(b@) {
                    Some(p) => r matches Ok(s) && s.position() == p && s.snapshot_bytes() == b@,
                    None => r == Err::<SeqInput, BadResumeState>(BadResumeState),
                },
            },
            r matches Ok(s) ==> s.items_spec() == items@ && s.wf(),
    {
        let (pos, resume_state) = match resume {
            None => (0u64, None),
            Some(b) => match decode_position(&b) {
                Ok(p) => (p, Some(b)),
                Err(e) => {
                    return Err(e);
                },
            },
        };
        let reader = ManualInput::new(resume_state, StateBytes(Vec::new()));
        proof {
            if resume is None {
                assert(reader.last_state_spec()@ =~= Seq::<u8>::empty());
            }
        }
        Ok(SeqInput { items, pos, reader })
    }

    /// The state that came with the last item handed out, or the state the
    /// source was built from.
    pub fn snapshot_state(&self) -> (r: StateBytes)
        ensures
            r@ == self.snapshot_bytes(),
    {
        self.reader.last_state().clone()
    }

    /// Hands out the item at the present position, or reports `Done` past
    /// the end; never `Pending`.
    pub fn pull(&mut self) -> (r: Pulled<u64>)
        ensures
            final(self).items_spec() == old(self).items_spec(),
            old(self).position() < old(self).items_spec().len() ==> r == Pulled::Item(
                old(self).items_spec()[old(self).position() as int],
            ) && final(self).position() == old(self).position() + 1 && final(self).snapshot_bytes()
                == snapshot_at(final(self).position()),
            old(self).position() >= old(self).items_spec().len() ==> r == Pulled::<u64>::Done
                && final(self).position() == old(self).position() && final(self).snapshot_bytes()
                == old(self).snapshot_bytes(),
            old(self).wf() ==> final(self).wf(),
            rest(old(self).items_spec(), old(self).position()) == match r {
                Pulled::Item(x) => seq![x] + rest(final(self).items_spec(), final(self).position()),
                _ => Seq::<u64>::empty(),
            },
    {
        let raw = if self.pos < self.items.len() as u64 {
            let next = self.pos + 1;
            Pulled::Item(Some((encode_position(next), self.items[self.pos as usize])))
        } else {
            Pulled::Done
        };
        let r = match self.reader.next(raw) {
            Ok(p) => p,
            Err(_) => Pulled::Done,
        };
        if let Pulled::Item(_) = r {
            self.pos = self.pos + 1;
            proof {
                lemma_position_round_trip(self.pos);
                let items = self.items@;
                let p = (self.pos - 1) as int;
                assert(items.subrange(p, items.len() as int) =~= seq![items[p]] + rest(items, self.pos));
            }
        }
        r
    }
}

impl InputReader<u64> for SeqInput {
    open spec fn next_result(&self) -> Pulled<u64> {
        if self.position() < self.items_spec().len() {
            Pulled::Item(self.items_spec()[self.position() as int])
        } else {
            Pulled::Done
        }
    }

    open spec fn next_state(&self, after: &Self) -> bool {
        &&& after.items_spec() == self.items_spec()
        &&& self.position() < self.items_spec().len() ==> after.position() == self.position() + 1
            && after.snapshot_bytes() == snapshot_at(after.position())
        &&& self.position() >= self.items_spec().len() ==> after.position() == self.position()
            && after.snapshot_bytes() == self.snapshot_bytes()
    }

    open spec fn snapshot_view(&self) -> Seq<u8> {
        self.snapshot_bytes()
    }

    fn next(&mut self) -> Pulled<u64> {
        self.pull()
    }

    fn snapshot(&self) -> StateBytes {
        self.snapshot_state()
    }
}

/// Eight little-endian bytes give back the position they were made from.
pub proof fn lemma_position_round_trip(n: u64)
    ensures
        bytes_position(position_bytes(n)) == n,
{
    let b = position_bytes(n);
    assert(((n as u8) as u64) | ((((n >> 8u64) as u8) as u64) << 8u64) | ((((n >> 16u64) as u8)
        as u64) << 16u64) | ((((n >> 24u64) as u8) as u64) << 24u64) | ((((n >> 32u64) as u8)
        as u64) << 32u64) | ((((n >> 40u64) as u8) as u64) << 40u64) | ((((n >> 48u64) as u8)
        as u64) << 48u64) | ((((n >> 56u64) as u8) as u64) << 56u64) == n) by (bit_vector);
}

/// Resuming is exact: a source rebuilt from the snapshot taken after the
/// first `k` items starts at position `k`, and what it yields is the rest of
/// the sequence after those `k` items, with no item twice and none missed.
pub proof fn lemma_resume_round_trip(items: Seq<u64>, k: u64)
    requires
        k <= items.len(),
    ensures
        resume_position(snapshot_at(k)) == Some(k),
        items.subrange(0, k as int) + rest(items, k) == items,
{
    if k > 0 {
        lemma_position_round_trip(k);
    }
    assert(items.subrange(0, k as int) + rest(items, k) =~= items);
}

} // verus!
