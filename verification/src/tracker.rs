//! The tracker: owner of the registry of in-flight operations.  All
//! mutation goes through one loop outside the library; the registry
//! itself, with its uniqueness invariant, the add/remove/cancel rules
//! and the JSON stats report, is verified here.

use crate::events::{NativeError, NativeErrorKind, Severity};
use crate::operations::{spec_done_at, OperationStat};
use crate::text::{
    append_dec, append_json_escaped, dec_chars, json_escaped, uuid_chars, uuid_string,
};
use crate::OperationId;
use tokio_util::sync::CancellationToken;
use vstd::prelude::*;

verus! {

/// One registered operation: its stat plus the two tokens other
/// components use to ask it to stop and to learn that it stopped.
struct TrackerEntry {
    id: OperationId,
    stat: OperationStat,
    cancel_token: CancellationToken,
    done_token: CancellationToken,
}

/// Whether some pair in `v` carries the id.
pub open spec fn live_has(v: Seq<(OperationId, OperationStat)>, id: OperationId) -> bool {
    exists|i: int| 0 <= i < v.len() && v[i].0 == id
}

/// `v` without every pair carrying the id, order kept.
pub open spec fn live_remove(v: Seq<(OperationId, OperationStat)>, id: OperationId) -> Seq<
    (OperationId, OperationStat),
>
    decreases v.len(),
{
    if v.len() == 0 {
        Seq::empty()
    } else if v.last().0 == id {
        live_remove(v.drop_last(), id)
    } else {
        live_remove(v.drop_last(), id).push(v.last())
    }
}

/// The stat recorded beside `id` in `v` (meaningful when the id is
/// there and unique).
pub open spec fn live_stat_of(v: Seq<(OperationId, OperationStat)>, id: OperationId) -> OperationStat {
    v[choose|i: int| 0 <= i < v.len() && v[i].0 == id].1
}

/// No two pairs of `v` carry the same id.
pub open spec fn live_unique(v: Seq<(OperationId, OperationStat)>) -> bool {
    forall|i: int, j: int| 0 <= i < j < v.len() ==> v[i].0 != v[j].0
}

/// Removing an absent id changes nothing.
pub proof fn lemma_live_remove_absent(v: Seq<(OperationId, OperationStat)>, id: OperationId)
    requires
        !live_has(v, id),
    ensures
        live_remove(v, id) == v,
    decreases v.len(),
{
    if v.len() > 0 {
        assert(!live_has(v.drop_last(), id));
        lemma_live_remove_absent(v.drop_last(), id);
        assert(live_remove(v, id) =~= v);
    } else {
        assert(live_remove(v, id) =~= v);
    }
}

/// Law: an id just registered is present.  Together with
/// `add_operation`'s contract — its result is exactly "the id was
/// absent", and a successful registration extends the registry by that
/// id — this gives: a registration followed at once by a second
/// registration of the same id reports `false` the second time.
pub proof fn lemma_added_id_is_present(
    v: Seq<(OperationId, OperationStat)>,
    id: OperationId,
    st: OperationStat,
)
    ensures
        live_has(v.push((id, st)), id),
{
    assert(v.push((id, st))[v.len() as int] == (id, st));
}

/// Law: after an id is removed, it is gone — a lookup of it fails.
/// Together with `cancel_operation`'s contract — its result is exactly
/// "the id is registered" — this gives: cancelling an operation that
/// was registered and then removed reports `false`.
pub proof fn lemma_removed_id_is_gone(v: Seq<(OperationId, OperationStat)>, id: OperationId)
    ensures
        !live_has(live_remove(v, id), id),
    decreases v.len(),
{
    if v.len() > 0 {
        lemma_removed_id_is_gone(v.drop_last(), id);
    }
}

/// Removal of one id keeps the remaining pairs unique.
pub proof fn lemma_live_remove_unique(v: Seq<(OperationId, OperationStat)>, id: OperationId)
    requires
        live_unique(v),
    ensures
        live_unique(live_remove(v, id)),
    decreases v.len(),
{
    if v.len() > 0 {
        assert(live_unique(v.drop_last()));
        lemma_live_remove_unique(v.drop_last(), id);
        if v.last().0 != id {
            let w = live_remove(v.drop_last(), id);
            assert(forall|i: int| 0 <= i < w.len() ==> live_has(v.drop_last(), #[trigger] w[i].0))
                by {
                lemma_live_remove_membership(v.drop_last(), id);
            }
            assert(forall|i: int| 0 <= i < w.len() ==> #[trigger] w[i].0 != v.last().0) by {
                assert(forall|k: int| 0 <= k < v.drop_last().len() ==> #[trigger] v.drop_last()[k].0
                    != v.last().0);
            }
        }
    }
}

/// Every pair that survives a removal was in the original sequence.
pub proof fn lemma_live_remove_membership(v: Seq<(OperationId, OperationStat)>, id: OperationId)
    ensures
        forall|i: int|
            0 <= i < live_remove(v, id).len() ==> live_has(v, #[trigger] live_remove(v, id)[i].0),
    decreases v.len(),
{
    if v.len() > 0 {
        lemma_live_remove_membership(v.drop_last(), id);
        let r = live_remove(v, id);
        let w = live_remove(v.drop_last(), id);
        assert forall|i: int| 0 <= i < r.len() implies live_has(v, r[i].0) by {
            if v.last().0 == id {
                assert(r == w);
                assert(live_has(v.drop_last(), r[i].0));
                let k = choose|k: int| 0 <= k < v.drop_last().len() && v.drop_last()[k].0 == r[i].0;
                assert(v[k] == v.drop_last()[k]);
            } else {
                if i < r.len() - 1 {
                    assert(r[i] == w[i]);
                    assert(live_has(v.drop_last(), r[i].0));
                    let k = choose|k: int|
                        0 <= k < v.drop_last().len() && v.drop_last()[k].0 == r[i].0;
                    assert(v[k] == v.drop_last()[k]);
                } else {
                    assert(r[i] == v.last());
                    assert(v[v.len() - 1].0 == r[i].0);
                }
            }
        }
    }
}

/// Removing the single occurrence of an id (at a known index, in a
/// unique sequence) is the same as filtering the id out.
pub proof fn lemma_remove_at_index(v: Seq<(OperationId, OperationStat)>, id: OperationId, i: int)
    requires
        live_unique(v),
        0 <= i < v.len(),
        v[i].0 == id,
    ensures
        live_remove(v, id) == v.remove(i),
    decreases v.len(),
{
    if i == v.len() - 1 {
        assert(!live_has(v.drop_last(), id));
        lemma_live_remove_absent(v.drop_last(), id);
        assert(live_remove(v, id) =~= v.remove(i));
    } else {
        assert(live_unique(v.drop_last()));
        assert(v.drop_last()[i] == v[i]);
        lemma_remove_at_index(v.drop_last(), id, i);
        assert(v.last().0 != id);
        assert(live_remove(v, id) =~= v.remove(i)) by {
            assert(live_remove(v, id) == v.drop_last().remove(i).push(v.last()));
            assert forall|k: int| 0 <= k < v.len() - 1 implies v.remove(i)[k] == v.drop_last().remove(
                i,
            ).push(v.last())[k] by {
                if k < i {
                } else if k < v.len() - 2 {
                } else {
                }
            }
        }
    }
}

/// The JSON object for one stat snapshot.
pub open spec fn stat_json(st: OperationStat) -> Seq<char> {
    "{\"uuid\":\""@ + json_escaped(st.uuid@) + "\",\"name\":\""@ + json_escaped(st.name@)
        + "\",\"duration\":"@ + dec_chars(st.duration as nat) + ",\"started\":"@ + dec_chars(
        st.started as nat,
    ) + "}"@
}

/// The comma-separated JSON objects for a sequence of stats.
pub open spec fn stats_json_items(stats: Seq<OperationStat>) -> Seq<char>
    decreases stats.len(),
{
    if stats.len() == 0 {
        Seq::empty()
    } else if stats.len() == 1 {
        stat_json(stats[0])
    } else {
        stats_json_items(stats.drop_last()) + seq![','] + stat_json(stats.last())
    }
}

/// The JSON array of a sequence of stat snapshots.
pub open spec fn stats_json(stats: Seq<OperationStat>) -> Seq<char> {
    seq!['['] + stats_json_items(stats) + seq![']']
}

/// The registry of operations: in-flight entries, each at most once,
/// plus the finalized stats of operations already removed.
pub struct Tracker {
    entries: Vec<TrackerEntry>,
    finished: Vec<OperationStat>,
}

impl Tracker {
    /// The in-flight entries, as (id, stat) pairs in registration
    /// order.
    pub closed spec fn live(self) -> Seq<(OperationId, OperationStat)> {
        self.entries@.map_values(|e: TrackerEntry| (e.id, e.stat))
    }

    /// The finalized stats of removed operations, oldest first.
    pub closed spec fn finished(self) -> Seq<OperationStat> {
        self.finished@
    }

    /// Whether an operation is currently registered.
    pub open spec fn has(self, id: OperationId) -> bool {
        live_has(self.live(), id)
    }

    /// The registry's invariant: an id is present at most once.
    pub open spec fn wf(self) -> bool {
        live_unique(self.live())
    }

    /// Every stat the registry can report: the in-flight ones first, in
    /// registration order, then the finalized ones.
    pub open spec fn all_stats(self) -> Seq<OperationStat> {
        self.live().map_values(|p: (OperationId, OperationStat)| p.1) + self.finished()
    }

    /// An empty registry.
    pub fn new() -> (r: Tracker)
        ensures
            r.wf(),
            r.live().len() == 0,
            r.finished().len() == 0,
    {
        let r = Tracker { entries: Vec::new(), finished: Vec::new() };
        proof {
            assert(r.live() =~= Seq::<(OperationId, OperationStat)>::empty());
        }
        r
    }

    /// The index of the entry carrying `id`, if any.
    fn find_index(&self, id: OperationId) -> (r: Option<usize>)
        ensures
            r matches Some(i) ==> i < self.live().len() && self.live()[i as int].0 == id,
            r is None ==> !self.has(id),
    {
        let mut i: usize = 0;
        let n = self.entries.len();
        while i < n
            invariant
                0 <= i <= n == self.entries.len(),
                forall|k: int| 0 <= k < i ==> self.live()[k].0 != id,
            decreases n - i,
        {
            if self.entries[i].id == id {
                return Some(i);
            }
            i = i + 1;
        }
        None
    }

    /// Registers an operation unless its id is already present; reports
    /// whether insertion happened.  `false` means the caller must treat
    /// the operation as already existing and must not run its handler.
    pub fn add_operation(
        &mut self,
        id: OperationId,
        name: String,
        cancel_token: CancellationToken,
        done_token: CancellationToken,
    ) -> (r: bool)
        requires
            old(self).wf(),
        ensures
            final(self).wf(),
            r == !old(self).has(id),
            final(self).has(id),
            !r ==> final(self).live() == old(self).live() && final(self).finished() == old(self).finished(),
            r ==> final(self).live().len() == old(self).live().len() + 1
                && final(self).live().drop_last() == old(self).live()
                && final(self).live().last().0 == id
                && final(self).live().last().1.uuid@ == uuid_chars(id)
                && final(self).live().last().1.name == name
                && final(self).live().last().1.duration == 0
                && final(self).finished() == old(self).finished(),
    {
        match self.find_index(id) {
            Some(_) => false,
            None => {
                let stat = OperationStat::new(uuid_string(id), name);
                self.entries.push(TrackerEntry { id, stat, cancel_token, done_token });
                proof {
                    let v = self.live();
                    let w = old(self).live();
                    assert(v.drop_last() =~= w);
                    assert(v.last().0 == id);
                    assert forall|i: int, j: int| 0 <= i < j < v.len() implies v[i].0 != v[j].0 by {
                        if j < v.len() - 1 {
                            assert(v[i] == w[i] && v[j] == w[j]);
                        } else {
                            assert(v[i] == w[i]);
                            assert(!live_has(w, id));
                        }
                    }
                }
                true
            },
        }
    }

    /// Requests cancellation of a registered operation: sets its
    /// cancellation token (waking any task awaiting it) and reports
    /// `true`; an unknown id changes nothing and reports `false`.
    pub fn cancel_operation(&self, id: OperationId) -> (r: bool)
        ensures
            r == self.has(id),
    {
        match self.find_index(id) {
            Some(i) => {
                self.entries[i].cancel_token.cancel();
                true
            },
            None => false,
        }
    }

    /// Deletes the entry of an operation, finalizing its duration
    /// against the clock as a side effect observable through the stats
    /// report; unknown ids are a no-op.
    pub fn remove_operation(&mut self, id: OperationId)
        requires
            old(self).wf(),
        ensures
            final(self).wf(),
            !final(self).has(id),
            final(self).live() == live_remove(old(self).live(), id),
            !old(self).has(id) ==> final(self).live() == old(self).live() && final(self).finished()
                == old(self).finished(),
            old(self).has(id) ==> final(self).finished().len() == old(self).finished().len() + 1
                && final(self).finished().drop_last() == old(self).finished() && (exists|ts: u64|
                final(self).finished().last() == #[trigger] spec_done_at(
                    live_stat_of(old(self).live(), id),
                    ts,
                )),
    {
        match self.find_index(id) {
            Some(i) => {
                let ghost oldv = old(self).live();
                let ghost stat0 = oldv[i as int].1;
                let mut entry = self.entries.remove(i);
                proof {
                    assert(entry.stat == stat0);
                }
                entry.stat.done();
                proof {
                    assert(exists|ts: u64| entry.stat == #[trigger] spec_done_at(stat0, ts));
                }
                self.finished.push(entry.stat);
                proof {
                    assert(self.live() =~= oldv.remove(i as int));
                    lemma_remove_at_index(oldv, id, i as int);
                    lemma_live_remove_unique(oldv, id);
                    lemma_removed_id_is_gone(oldv, id);
                    assert(self.finished().drop_last() =~= old(self).finished());
                    let w = choose|k: int| 0 <= k < oldv.len() && oldv[k].0 == id;
                    assert(oldv[w].0 == oldv[i as int].0);
                    assert(w == i as int);
                    assert(live_stat_of(oldv, id) == stat0);
                    let ts = choose|ts: u64| entry.stat == #[trigger] spec_done_at(stat0, ts);
                    assert(self.finished().last() == spec_done_at(live_stat_of(oldv, id), ts));
                }
            },
            None => {
                proof {
                    lemma_live_remove_absent(old(self).live(), id);
                }
            },
        }
    }

    /// The JSON array of all current stat snapshots.
    pub fn get_operations_stat(&self) -> (r: String)
        ensures
            r@ == stats_json(self.all_stats()),
    {
        proof {
            reveal_strlit("[");
            reveal_strlit("]");
            reveal_strlit(",");
        }
        let mut out = String::from_str("[");
        let n = self.entries.len();
        let mut i: usize = 0;
        while i < n
            invariant
                0 <= i <= n == self.entries.len(),
                out@ == seq!['['] + stats_json_items(self.all_stats().subrange(0, i as int)),
            decreases n - i,
        {
            let ghost out0 = out@;
            let ghost i0 = i as int;
            if i > 0 {
                out.append(",");
            }
            append_stat_json(&mut out, &self.entries[i].stat);
            i = i + 1;
            proof {
                let all = self.all_stats();
                assert(out0 == seq!['['] + stats_json_items(all.subrange(0, i0)));
                reveal_strlit(",");
                if i0 == 0 {
                    assert(out@ =~= out0 + stat_json(self.entries@[i0].stat));
                } else {
                    assert(out@ =~= out0 + seq![','] + stat_json(self.entries@[i0].stat));
                }
                assert(self.live().len() == n);
                assert(all[i as int - 1] == self.live()[i as int - 1].1);
                assert(self.live()[i as int - 1] == (
                    self.entries@[i as int - 1].id,
                    self.entries@[i as int - 1].stat,
                ));
                let pfx = all.subrange(0, i as int);
                let prev = all.subrange(0, i as int - 1);
                assert(pfx.drop_last() =~= prev);
                assert(pfx.last() == self.entries@[i as int - 1].stat);
                if i == 1 {
                    assert(stats_json_items(pfx) == stat_json(pfx[0]));
                    assert(stats_json_items(prev) == Seq::<char>::empty());
                } else {
                    assert(stats_json_items(pfx) == stats_json_items(prev) + seq![','] + stat_json(
                        pfx.last(),
                    ));
                }
                assert(out@ =~= seq!['['] + stats_json_items(pfx));
            }
        }
        let m = self.finished.len();
        let mut j: usize = 0;
        while j < m
            invariant
                0 <= j <= m == self.finished.len(),
                n == self.entries.len(),
                out@ == seq!['['] + stats_json_items(self.all_stats().subrange(0, n + j as int)),
            decreases m - j,
        {
            let ghost out0 = out@;
            let ghost j0 = j as int;
            if n > 0 || j > 0 {
                out.append(",");
            }
            append_stat_json(&mut out, &self.finished[j]);
            j = j + 1;
            proof {
                let all = self.all_stats();
                assert(self.live().len() == n);
                assert(out0 == seq!['['] + stats_json_items(all.subrange(0, n + j0)));
                reveal_strlit(",");
                if n == 0 && j0 == 0 {
                    assert(out@ =~= out0 + stat_json(self.finished@[j0]));
                } else {
                    assert(out@ =~= out0 + seq![','] + stat_json(self.finished@[j0]));
                }
                assert(all[n + j as int - 1] == self.finished@[j as int - 1]);
                let pfx = all.subrange(0, n + j as int);
                let prev = all.subrange(0, n + j as int - 1);
                assert(pfx.drop_last() =~= prev);
                assert(pfx.last() == self.finished@[j as int - 1]);
                if n == 0 && j == 1 {
                    assert(stats_json_items(pfx) == stat_json(pfx[0]));
                    assert(stats_json_items(prev) == Seq::<char>::empty());
                } else {
                    assert(stats_json_items(pfx) == stats_json_items(prev) + seq![','] + stat_json(
                        pfx.last(),
                    ));
                }
                assert(out@ =~= seq!['['] + stats_json_items(pfx));
            }
        }
        out.append("]");
        proof {
            assert(self.all_stats().subrange(0, self.all_stats().len() as int) =~= self.all_stats());
            assert(out@ =~= stats_json(self.all_stats()));
        }
        out
    }
}

/// The loop-failure error injected to exercise failure propagation.
pub fn tracker_test_error() -> (r: NativeError)
    ensures
        r.severity == Severity::ERROR,
        r.kind == NativeErrorKind::Io,
        r.message matches Some(m) && m@ == "Shutdown tracker loop with error for testing"@,
{
    NativeError {
        severity: Severity::ERROR,
        kind: NativeErrorKind::Io,
        message: Some(String::from_str("Shutdown tracker loop with error for testing")),
    }
}

/// Appends the JSON object of one stat snapshot.
fn append_stat_json(out: &mut String, st: &OperationStat)
    ensures
        final(out)@ == old(out)@ + stat_json(*st),
{
    proof {
        reveal_strlit("{\"uuid\":\"");
        reveal_strlit("\",\"name\":\"");
        reveal_strlit("\",\"duration\":");
        reveal_strlit(",\"started\":");
        reveal_strlit("}");
    }
    out.append("{\"uuid\":\"");
    append_json_escaped(out, st.uuid.as_str());
    out.append("\",\"name\":\"");
    append_json_escaped(out, st.name.as_str());
    out.append("\",\"duration\":");
    append_dec(out, st.duration);
    out.append(",\"started\":");
    append_dec(out, st.started);
    out.append("}");
    proof {
        assert(final(out)@ =~= old(out)@ + stat_json(*st));
    }
}

} // verus!
