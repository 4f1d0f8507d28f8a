//! What holds of every run of the epoch coordinator, tick after tick.
use vstd::prelude::*;

use crate::coordinator::{Event, Record, step, tick_records};

verus! {

/// The flow's epoch after a run of ticks that observed `evs`, from `s`.
pub open spec fn run(s: Option<u64>, evs: Seq<Event>) -> Option<u64>
    decreases evs.len(),
{
    if evs.len() == 0 {
        s
    } else {
        step(run(s, evs.drop_last()), evs.last())
    }
}

/// Every record emitted by a run of ticks that observed `evs`, from `s`.
pub open spec fn emitted(s: Option<u64>, evs: Seq<Event>) -> Seq<Record>
    decreases evs.len(),
{
    if evs.len() == 0 {
        seq![]
    } else {
        emitted(s, evs.drop_last()) + tick_records(run(s, evs.drop_last()), evs.last())
    }
}

/// A tick keeps the epoch or moves it on by exactly one, and moves it on by
/// exactly one whenever it emits an item.
pub proof fn lemma_epoch_monotonic(e: u64, ev: Event)
    requires
        e < u64::MAX,
    ensures
        step(Some(e), ev) matches Some(n) ==> (n == e || n == e + 1),
        ev == Event::Item ==> step(Some(e), ev) == Some((e + 1) as u64),
{
}

/// Once `Done` is observed the flow is terminal: no later tick emits a data
/// or change record, or brings back a capability.
pub proof fn lemma_terminal_flow(e: u64, evs: Seq<Event>)
    ensures
        step(Some(e), Event::Done) is None,
        run(None, evs) is None,
        emitted(None, evs) == Seq::<Record>::empty(),
    decreases evs.len(),
{
    if evs.len() > 0 {
        lemma_terminal_flow(e, evs.drop_last());
        assert(emitted(None, evs) =~= emitted(None, evs.drop_last()));
    }
}

/// Over any run from epoch `e0`: change records come at strictly increasing
/// epochs, so an epoch holds at most one of them, and there is one exactly for
/// each tick that saw an item or `Done`; no two items share an epoch; each item
/// is directly followed by the change record of its own epoch; and every record
/// is older than the present epoch.
pub proof fn lemma_records_by_epoch(e0: u64, evs: Seq<Event>)
    requires
        e0 + evs.len() <= u64::MAX,
    ensures
        forall|i: int, j: int|
            0 <= i < j < emitted(Some(e0), evs).len() && #[trigger] emitted(Some(e0), evs)[i] is Change
                && #[trigger] emitted(Some(e0), evs)[j] is Change ==> emitted(Some(e0), evs)[i].epoch()
                < emitted(Some(e0), evs)[j].epoch(),
        forall|i: int, j: int|
            0 <= i < j < emitted(Some(e0), evs).len() && #[trigger] emitted(Some(e0), evs)[i] is Data
                && #[trigger] emitted(Some(e0), evs)[j] is Data ==> emitted(Some(e0), evs)[i].epoch()
                < emitted(Some(e0), evs)[j].epoch(),
        forall|i: int|
            0 <= i < emitted(Some(e0), evs).len() && #[trigger] emitted(Some(e0), evs)[i] is Data ==> i
                + 1 < emitted(Some(e0), evs).len() && emitted(Some(e0), evs)[i + 1] == Record::Change(
                emitted(Some(e0), evs)[i].epoch(),
            ),
        run(Some(e0), evs) matches Some(e) ==> e0 <= e <= e0 + evs.len() && forall|i: int|
            0 <= i < emitted(Some(e0), evs).len() ==> #[trigger] emitted(Some(e0), evs)[i].epoch() < e,
    decreases evs.len(),
{
    if evs.len() > 0 {
        let p = evs.drop_last();
        let ev = evs.last();
        lemma_records_by_epoch(e0, p);
        let old_rs = emitted(Some(e0), p);
        let s = run(Some(e0), p);
        let new_rs = tick_records(s, ev);
        let rs = emitted(Some(e0), evs);
        assert(rs == old_rs + new_rs);
        match s {
            None => {
                assert(new_rs =~= Seq::<Record>::empty());
                assert(rs =~= old_rs);
            },
            Some(e) => {
                assert forall|i: int| old_rs.len() <= i < rs.len() implies #[trigger] rs[i].epoch() == e by {
                    assert(rs[i] == new_rs[i - old_rs.len()]);
                }
                assert forall|i: int| 0 <= i < old_rs.len() implies #[trigger] rs[i] == old_rs[i] by {}
                assert forall|i: int|
                    0 <= i < rs.len() && #[trigger] rs[i] is Data implies i + 1 < rs.len() && rs[i + 1]
                        == Record::Change(rs[i].epoch()) by {
                    if i < old_rs.len() {
                        assert(rs[i] == old_rs[i]);
                        assert(rs[i + 1] == old_rs[i + 1]);
                    } else {
                        assert(ev == Event::Item);
                        assert(rs[i] == new_rs[i - old_rs.len()]);
                    }
                }
            },
        }
    }
}

/// The tick that observed `ev` in state `s` ends epoch `e`: it saw an item
/// or `Done` while the flow stood at `e`.
pub open spec fn ends_epoch(s: Option<u64>, ev: Event, e: u64) -> bool {
    s == Some(e) && (ev == Event::Item || ev == Event::Done)
}

/// Some tick of a run that observed `evs` from `s` ended epoch `e`.
pub open spec fn ended_in_run(s: Option<u64>, evs: Seq<Event>, e: u64) -> bool {
    exists|k: int| 0 <= k < evs.len() && #[trigger] ends_epoch(run(s, evs.take(k)), evs[k], e)
}

/// A run emits a change record at epoch `e` exactly when one of its ticks
/// ended epoch `e`; with change records at strictly increasing epochs, that
/// is one record for each such epoch and none for an epoch whose ticks only
/// found the source pending.
pub proof fn lemma_changes_mark_ended_epochs(s: Option<u64>, evs: Seq<Event>, e: u64)
    ensures
        (exists|i: int|
            0 <= i < emitted(s, evs).len() && #[trigger] emitted(s, evs)[i] == Record::Change(e))
            <==> ended_in_run(s, evs, e),
    decreases evs.len(),
{
    if evs.len() == 0 {
        assert(!ended_in_run(s, evs, e));
    } else {
        let p = evs.drop_last();
        let ev = evs.last();
        let n = p.len() as int;
        lemma_changes_mark_ended_epochs(s, p, e);
        let old_rs = emitted(s, p);
        let new_rs = tick_records(run(s, p), ev);
        let rs = emitted(s, evs);
        assert(rs == old_rs + new_rs);
        assert(evs.take(n) =~= p);
        assert forall|k: int| 0 <= k < n implies evs.take(k) =~= p.take(k) && evs[k] == p[k] by {}
        let new_has = exists|i: int| 0 <= i < new_rs.len() && #[trigger] new_rs[i] == Record::Change(e);
        assert(new_has <==> ends_epoch(run(s, p), ev, e)) by {
            if ends_epoch(run(s, p), ev, e) {
                if ev == Event::Item {
                    assert(new_rs[1] == Record::Change(e));
                } else {
                    assert(new_rs[0] == Record::Change(e));
                }
            }
        }
        if exists|i: int| 0 <= i < rs.len() && #[trigger] rs[i] == Record::Change(e) {
            let i = choose|i: int| 0 <= i < rs.len() && #[trigger] rs[i] == Record::Change(e);
            if i < old_rs.len() {
                assert(old_rs[i] == Record::Change(e));
                let k = choose|k: int| 0 <= k < p.len() && #[trigger] ends_epoch(run(s, p.take(k)), p[k], e);
                assert(ends_epoch(run(s, evs.take(k)), evs[k], e));
            } else {
                assert(new_rs[i - old_rs.len()] == Record::Change(e));
                assert(ends_epoch(run(s, evs.take(n)), evs[n], e));
            }
        }
        if ended_in_run(s, evs, e) {
            let k = choose|k: int| 0 <= k < evs.len() && #[trigger] ends_epoch(run(s, evs.take(k)), evs[k], e);
            if k < n {
                assert(ends_epoch(run(s, p.take(k)), p[k], e));
                let i = choose|i: int| 0 <= i < old_rs.len() && #[trigger] old_rs[i] == Record::Change(e);
                assert(rs[i] == Record::Change(e));
            } else {
                let j = choose|j: int| 0 <= j < new_rs.len() && #[trigger] new_rs[j] == Record::Change(e);
                assert(rs[old_rs.len() + j] == Record::Change(e));
            }
        }
    }
}

} // verus!
