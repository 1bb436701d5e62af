//! The state actor's record: session-level status, the debug flag and
//! the set of operations currently mid-cancellation.  One loop outside
//! the library owns a value of this type and feeds it commands; the
//! effect of every command is verified here.

use crate::events::{NativeError, NativeErrorKind, Severity};
use crate::OperationId;
use vstd::prelude::*;

verus! {

/// Session status: open until closed, exactly once, never back.
#[derive(Debug, Clone, PartialEq, Eq, Structural)]
pub enum Status {
    Open,
    Closed,
}

/// Whether `v` holds the id.
pub open spec fn ids_have(v: Seq<OperationId>, id: OperationId) -> bool {
    exists|i: int| 0 <= i < v.len() && v[i] == id
}

/// `v` without every occurrence of the id, order kept.
pub open spec fn ids_remove(v: Seq<OperationId>, id: OperationId) -> Seq<OperationId>
    decreases v.len(),
{
    if v.len() == 0 {
        Seq::empty()
    } else if v.last() == id {
        ids_remove(v.drop_last(), id)
    } else {
        ids_remove(v.drop_last(), id).push(v.last())
    }
}

/// No id occurs twice in `v`.
pub open spec fn ids_unique(v: Seq<OperationId>) -> bool {
    forall|i: int, j: int| 0 <= i < j < v.len() ==> v[i] != v[j]
}

/// Removing an absent id changes nothing.
pub proof fn lemma_ids_remove_absent(v: Seq<OperationId>, id: OperationId)
    requires
        !ids_have(v, id),
    ensures
        ids_remove(v, id) == v,
    decreases v.len(),
{
    if v.len() > 0 {
        assert(!ids_have(v.drop_last(), id));
        lemma_ids_remove_absent(v.drop_last(), id);
        assert(ids_remove(v, id) =~= v);
    } else {
        assert(ids_remove(v, id) =~= v);
    }
}

/// A removed id is gone.
pub proof fn lemma_ids_remove_gone(v: Seq<OperationId>, id: OperationId)
    ensures
        !ids_have(ids_remove(v, id), id),
    decreases v.len(),
{
    if v.len() > 0 {
        lemma_ids_remove_gone(v.drop_last(), id);
    }
}

/// Every id that survives a removal was there before.
pub proof fn lemma_ids_remove_membership(v: Seq<OperationId>, id: OperationId)
    ensures
        forall|i: int|
            0 <= i < ids_remove(v, id).len() ==> ids_have(v, #[trigger] ids_remove(v, id)[i]),
    decreases v.len(),
{
    if v.len() > 0 {
        lemma_ids_remove_membership(v.drop_last(), id);
        let r = ids_remove(v, id);
        let w = ids_remove(v.drop_last(), id);
        assert forall|i: int| 0 <= i < r.len() implies ids_have(v, r[i]) by {
            if v.last() == id {
                assert(r == w);
                assert(ids_have(v.drop_last(), r[i]));
                let k = choose|k: int| 0 <= k < v.drop_last().len() && v.drop_last()[k] == r[i];
                assert(v[k] == v.drop_last()[k]);
            } else {
                if i < r.len() - 1 {
                    assert(r[i] == w[i]);
                    assert(ids_have(v.drop_last(), r[i]));
                    let k = choose|k: int| 0 <= k < v.drop_last().len() && v.drop_last()[k] == r[i];
                    assert(v[k] == v.drop_last()[k]);
                } else {
                    assert(r[i] == v.last());
                    assert(v[v.len() - 1] == r[i]);
                }
            }
        }
    }
}

/// Removal keeps the remaining ids unique.
pub proof fn lemma_ids_remove_unique(v: Seq<OperationId>, id: OperationId)
    requires
        ids_unique(v),
    ensures
        ids_unique(ids_remove(v, id)),
    decreases v.len(),
{
    if v.len() > 0 {
        assert(ids_unique(v.drop_last()));
        lemma_ids_remove_unique(v.drop_last(), id);
        if v.last() != id {
            let w = ids_remove(v.drop_last(), id);
            assert(forall|i: int| 0 <= i < w.len() ==> ids_have(v.drop_last(), #[trigger] w[i]))
                by {
                lemma_ids_remove_membership(v.drop_last(), id);
            }
            assert(forall|i: int| 0 <= i < w.len() ==> #[trigger] w[i] != v.last()) by {
                assert(forall|k: int|
                    0 <= k < v.drop_last().len() ==> #[trigger] v.drop_last()[k] != v.last());
            }
        }
    }
}

/// A command accepted by the state loop.
#[derive(Debug)]
pub enum Api {
    /// Close the session: the status becomes `Closed` and stays so.
    /// This does not itself cancel operations — cancelling from inside
    /// the loop could deadlock it when an operation needs state access
    /// during its own cancellation.
    CloseSession,
    /// Set the debug flag.
    SetDebugMode(bool),
    /// Note that an operation entered cancellation (fire-and-forget).
    NotifyCancelingOperation(OperationId),
    /// Note that an operation's cancellation completed (fire-and-forget).
    NotifyCanceledOperation(OperationId),
    /// Exit the loop normally.
    Shutdown,
    /// Exit the loop with a failure (test-only fault injection).
    ShutdownWithError,
}

/// What the state loop must do after applying a command.
#[derive(Debug, Clone, PartialEq, Eq)]
pub enum StateStep {
    /// Acknowledge over the command's response channel and go on.
    Acknowledge,
    /// Go on without acknowledgment.
    Note,
    /// Exit the loop normally.
    Exit,
    /// Exit the loop reporting this failure; the owning session must
    /// treat it as fatal.
    Fail(NativeError),
}

/// The status after one command: closing is the only transition, and it
/// is irreversible.
pub open spec fn status_after(status: Status, msg: Api) -> Status {
    if msg is CloseSession {
        Status::Closed
    } else {
        status
    }
}

/// The status after a whole stream of commands.
pub open spec fn status_after_all(status: Status, msgs: Seq<Api>) -> Status
    decreases msgs.len(),
{
    if msgs.len() == 0 {
        status
    } else {
        status_after(status_after_all(status, msgs.drop_last()), msgs.last())
    }
}

/// Law: a closed session stays closed under every stream of commands.
pub proof fn lemma_closed_stays_closed(msgs: Seq<Api>)
    ensures
        status_after_all(Status::Closed, msgs) is Closed,
    decreases msgs.len(),
{
    if msgs.len() > 0 {
        lemma_closed_stays_closed(msgs.drop_last());
    }
}

/// Law: once some command closed the session, every later command
/// leaves it closed — the status transitions open to closed exactly
/// once and never reverses.
pub proof fn lemma_close_is_permanent(status: Status, msgs: Seq<Api>, i: int)
    requires
        0 <= i < msgs.len(),
        msgs[i] is CloseSession,
    ensures
        status_after_all(status, msgs) is Closed,
    decreases msgs.len(),
{
    if i == msgs.len() - 1 {
    } else {
        lemma_close_is_permanent(status, msgs.drop_last(), i);
    }
}

/// The session-level record: owned and mutated by exactly one loop; all
/// other components hold message-sending handles only.
#[derive(Debug)]
pub struct SessionState {
    pub cancelling_operations: Vec<OperationId>,
    pub status: Status,
    pub debug: bool,
}

impl SessionState {
    /// The record's invariant: no operation is noted twice as
    /// cancelling.
    pub open spec fn wf(self) -> bool {
        ids_unique(self.cancelling_operations@)
    }

    /// Whether the session has been closed.
    pub open spec fn is_closed_spec(self) -> bool {
        self.status is Closed
    }

    /// A fresh record: open, not debugging, nothing cancelling.
    pub fn new() -> (r: SessionState)
        ensures
            r.wf(),
            r.status is Open,
            !r.debug,
            r.cancelling_operations@.len() == 0,
    {
        SessionState { status: Status::Open, cancelling_operations: Vec::new(), debug: false }
    }

    /// Whether the session has been closed.
    pub fn is_closed(&self) -> (r: bool)
        ensures
            r == self.is_closed_spec(),
    {
        match self.status {
            Status::Closed => true,
            Status::Open => false,
        }
    }

    /// Whether the operation is noted as mid-cancellation.
    pub fn is_cancelling(&self, id: OperationId) -> (r: bool)
        ensures
            r == ids_have(self.cancelling_operations@, id),
    {
        let n = self.cancelling_operations.len();
        let mut i: usize = 0;
        while i < n
            invariant
                0 <= i <= n == self.cancelling_operations@.len(),
                forall|k: int| 0 <= k < i ==> self.cancelling_operations@[k] != id,
            decreases n - i,
        {
            if self.cancelling_operations[i] == id {
                return true;
            }
            i = i + 1;
        }
        false
    }

    /// Applies one command and says what the loop must do next.
    pub fn apply(&mut self, msg: Api) -> (r: StateStep)
        requires
            old(self).wf(),
        ensures
            final(self).wf(),
            final(self).status == status_after(old(self).status, msg),
            old(self).status is Closed ==> final(self).status is Closed,
            msg is CloseSession ==> (final(self).debug == old(self).debug
                && final(self).cancelling_operations@ == old(self).cancelling_operations@
                && r == StateStep::Acknowledge),
            msg matches Api::SetDebugMode(d) ==> (final(self).debug == d
                && final(self).status == old(self).status
                && final(self).cancelling_operations@ == old(self).cancelling_operations@
                && r == StateStep::Acknowledge),
            msg matches Api::NotifyCancelingOperation(id) ==> (final(self).debug == old(self).debug
                && final(self).status == old(self).status
                && ids_have(final(self).cancelling_operations@, id)
                && (ids_have(old(self).cancelling_operations@, id)
                    ==> final(self).cancelling_operations@ == old(self).cancelling_operations@)
                && (!ids_have(old(self).cancelling_operations@, id)
                    ==> final(self).cancelling_operations@
                        == old(self).cancelling_operations@.push(id))
                && r == StateStep::Note),
            msg matches Api::NotifyCanceledOperation(id) ==> (final(self).debug == old(self).debug
                && final(self).status == old(self).status
                && final(self).cancelling_operations@
                    == ids_remove(old(self).cancelling_operations@, id)
                && !ids_have(final(self).cancelling_operations@, id)
                && r == StateStep::Note),
            msg is Shutdown ==> (final(self).debug == old(self).debug
                && final(self).status == old(self).status
                && final(self).cancelling_operations@ == old(self).cancelling_operations@
                && r == StateStep::Exit),
            msg is ShutdownWithError ==> (final(self).debug == old(self).debug
                && final(self).status == old(self).status
                && final(self).cancelling_operations@ == old(self).cancelling_operations@
                && (r matches StateStep::Fail(e) && e.severity == Severity::ERROR
                    && e.kind == NativeErrorKind::Io
                    && (e.message matches Some(m)
                        && m@ == "Shutdown state loop with error for testing"@))),
    {
        match msg {
            Api::CloseSession => {
                self.status = Status::Closed;
                StateStep::Acknowledge
            },
            Api::SetDebugMode(debug) => {
                self.debug = debug;
                StateStep::Acknowledge
            },
            Api::NotifyCancelingOperation(id) => {
                if !self.is_cancelling(id) {
                    self.cancelling_operations.push(id);
                    proof {
                        let v = self.cancelling_operations@;
                        let w = old(self).cancelling_operations@;
                        assert(v.drop_last() =~= w);
                        assert(v[v.len() - 1] == id);
                        assert(ids_have(v, id));
                        assert forall|i: int, j: int| 0 <= i < j < v.len() implies v[i] != v[j] by {
                            if j < v.len() - 1 {
                                assert(v[i] == w[i] && v[j] == w[j]);
                            } else {
                                assert(v[i] == w[i]);
                                assert(!ids_have(w, id));
                            }
                        }
                    }
                }
                StateStep::Note
            },
            Api::NotifyCanceledOperation(id) => {
                self.remove_cancelling(id);
                StateStep::Note
            },
            Api::Shutdown => StateStep::Exit,
            Api::ShutdownWithError => StateStep::Fail(
                NativeError {
                    severity: Severity::ERROR,
                    kind: NativeErrorKind::Io,
                    message: Some(String::from_str("Shutdown state loop with error for testing")),
                },
            ),
        }
    }

    /// The index of the id in the cancelling set, if any.
    fn find_cancelling(&self, id: OperationId) -> (r: Option<usize>)
        ensures
            r matches Some(k) ==> k < self.cancelling_operations@.len()
                && self.cancelling_operations@[k as int] == id,
            r is None ==> !ids_have(self.cancelling_operations@, id),
    {
        let n = self.cancelling_operations.len();
        let mut i: usize = 0;
        while i < n
            invariant
                0 <= i <= n == self.cancelling_operations@.len(),
                forall|k: int| 0 <= k < i ==> self.cancelling_operations@[k] != id,
            decreases n - i,
        {
            if self.cancelling_operations[i] == id {
                return Some(i);
            }
            i = i + 1;
        }
        None
    }

    /// Drops an id from the cancelling set.
    fn remove_cancelling(&mut self, id: OperationId)
        requires
            old(self).wf(),
        ensures
            final(self).wf(),
            final(self).status == old(self).status,
            final(self).debug == old(self).debug,
            final(self).cancelling_operations@ == ids_remove(old(self).cancelling_operations@, id),
            !ids_have(final(self).cancelling_operations@, id),
    {
        let found = self.find_cancelling(id);
        match found {
            Some(k) => {
                let ghost oldv = old(self).cancelling_operations@;
                self.cancelling_operations.remove(k);
                proof {
                    lemma_ids_remove_at_index(oldv, id, k as int);
                    lemma_ids_remove_unique(oldv, id);
                    lemma_ids_remove_gone(oldv, id);
                }
            },
            None => {
                proof {
                    lemma_ids_remove_absent(old(self).cancelling_operations@, id);
                    lemma_ids_remove_gone(old(self).cancelling_operations@, id);
                }
            },
        }
    }
}

/// Removing the single occurrence of an id (at a known index, in a
/// unique sequence) is the same as filtering the id out.
pub proof fn lemma_ids_remove_at_index(v: Seq<OperationId>, id: OperationId, i: int)
    requires
        ids_unique(v),
        0 <= i < v.len(),
        v[i] == id,
    ensures
        ids_remove(v, id) == v.remove(i),
    decreases v.len(),
{
    if i == v.len() - 1 {
        assert(!ids_have(v.drop_last(), id));
        lemma_ids_remove_absent(v.drop_last(), id);
        assert(ids_remove(v, id) =~= v.remove(i));
    } else {
        assert(ids_unique(v.drop_last()));
        assert(v.drop_last()[i] == v[i]);
        lemma_ids_remove_at_index(v.drop_last(), id, i);
        assert(v.last() != id);
        assert(ids_remove(v, id) =~= v.remove(i)) by {
            assert(ids_remove(v, id) == v.drop_last().remove(i).push(v.last()));
        }
    }
}

} // verus!
