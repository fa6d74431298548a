//! The table of operations in flight: each has an id and a kind, at most one
//! of each kind is tracked, and harvesting a result removes its entry.

use vstd::prelude::*;
use crate::keyed::{has_key, keys_unique};

verus! {

/// The kinds of network operation.
#[derive(Clone, Copy, Debug, PartialEq, Eq, Structural)]
pub enum OpKind {
    Register,
    Snapshot,
    Moves,
    Logs,
}

/// A tracked operation.
#[derive(Clone, Copy, Debug, PartialEq, Eq, Structural)]
pub struct PendingOp {
    pub id: u64,
    pub kind: OpKind,
}

pub open spec fn kind_key() -> spec_fn(PendingOp) -> OpKind {
    |p: PendingOp| p.kind
}

/// The number of entries of kind `k` in `s`.
pub open spec fn count_kind(s: Seq<PendingOp>, k: OpKind) -> nat
    decreases s.len(),
{
    if s.len() == 0 {
        0
    } else {
        count_kind(s.drop_last(), k) + if s.last().kind == k {
            1nat
        } else {
            0nat
        }
    }
}

/// `s` holds the operation `id` of kind `k`.
pub open spec fn has_op(s: Seq<PendingOp>, id: u64, k: OpKind) -> bool {
    exists|i: int| 0 <= i < s.len() && #[trigger] s[i] == (PendingOp { id, kind: k })
}

/// The id handed out after `id`; ids wrap around after the largest one, so a
/// result is taken for stale only once 2^64 newer operations have started.
pub open spec fn successor(id: u64) -> u64 {
    if id == u64::MAX {
        0
    } else {
        (id + 1) as u64
    }
}

/// The operations in flight, and the id the next one will get.
pub struct TaskSupervisor {
    pub entries: Vec<PendingOp>,
    pub next_id: u64,
}

impl TaskSupervisor {
    /// One entry per kind.
    pub open spec fn wf(&self) -> bool {
        keys_unique(self.entries@, kind_key())
    }

    pub open spec fn tracks(&self, k: OpKind) -> bool {
        has_key(self.entries@, k, kind_key())
    }

    pub open spec fn tracks_op(&self, id: u64, k: OpKind) -> bool {
        has_op(self.entries@, id, k)
    }

    pub fn new() -> (t: TaskSupervisor)
        ensures
            t.wf(),
            t.entries@ == Seq::<PendingOp>::empty(),
            t.next_id == 0,
    {
        TaskSupervisor { entries: Vec::new(), next_id: 0 }
    }

    /// The index of the entry of kind `k`, if there is one.
    fn index_of(&self, k: OpKind) -> (r: Option<usize>)
        ensures
            r matches Some(i) ==> i < self.entries@.len() && self.entries@[i as int].kind == k,
            r is None ==> !self.tracks(k),
    {
        let n = self.entries.len();
        let mut i: usize = 0;
        while i < n
            invariant
                n == self.entries@.len(),
                i <= n,
                forall|j: int| 0 <= j < i ==> (#[trigger] self.entries@[j]).kind != k,
            decreases n - i,
        {
            if self.entries[i].kind == k {
                return Some(i);
            }
            i = i + 1;
        }
        proof {
            if self.tracks(k) {
                let j = choose|j: int| 0 <= j < self.entries@.len() && kind_key()(#[trigger] self.entries@[j]) == k;
                assert(self.entries@[j].kind == k);
            }
        }
        None
    }

    /// Whether an operation of kind `k` is in flight.
    pub fn is_pending(&self, k: OpKind) -> (r: bool)
        ensures
            r == self.tracks(k),
    {
        let r = self.index_of(k);
        proof {
            if let Some(i) = r {
                assert(kind_key()(self.entries@[i as int]) == k);
            }
        }
        r.is_some()
    }

    /// The id of the operation of kind `k` in flight, if any.
    pub fn pending_id(&self, k: OpKind) -> (r: Option<u64>)
        requires
            self.wf(),
        ensures
            r matches Some(id) ==> self.tracks_op(id, k),
            r is None ==> !self.tracks(k),
    {
        match self.index_of(k) {
            Some(i) => {
                assert(self.entries@[i as int] == (PendingOp { id: self.entries@[i as int].id, kind: k }));
                Some(self.entries[i].id)
            },
            None => None,
        }
    }

    /// Starts tracking a new operation of kind `k` under the next id. Refused,
    /// with nothing changed, while one of that kind is in flight.
    pub fn spawn(&mut self, k: OpKind) -> (r: Option<u64>)
        requires
            old(self).wf(),
        ensures
            final(self).wf(),
            old(self).tracks(k) ==> r is None && *final(self) == *old(self),
            !old(self).tracks(k) ==> r == Some(old(self).next_id) && final(self).entries@
                == old(self).entries@.push(PendingOp { id: old(self).next_id, kind: k })
                && final(self).next_id == successor(old(self).next_id),
    {
        if self.is_pending(k) {
            return None;
        }
        let id = self.next_id;
        let ghost before = self.entries@;
        self.entries.push(PendingOp { id, kind: k });
        self.next_id = if id == u64::MAX {
            0
        } else {
            id + 1
        };
        proof {
            let s = self.entries@;
            assert forall|i: int, j: int|
                0 <= i < s.len() && 0 <= j < s.len() && i != j implies kind_key()(#[trigger] s[i])
                != kind_key()(#[trigger] s[j]) by {
                if i == before.len() as int {
                    assert(!(kind_key()(before[j]) == k));
                } else if j == before.len() as int {
                    assert(!(kind_key()(before[i]) == k));
                } else {
                    assert(s[i] == before[i] && s[j] == before[j]);
                }
            }
        }
        Some(id)
    }

    /// Removes the entry at `i`.
    fn remove_at(&mut self, i: usize)
        requires
            old(self).wf(),
            i < old(self).entries@.len(),
        ensures
            final(self).wf(),
            final(self).next_id == old(self).next_id,
            final(self).entries@ == old(self).entries@.remove(i as int),
            !final(self).tracks(old(self).entries@[i as int].kind),
            forall|k: OpKind| k != old(self).entries@[i as int].kind ==> (final(self).tracks(k) <==> old(self).tracks(k)),
            forall|id: u64, k: OpKind| k != old(self).entries@[i as int].kind ==> (final(self).tracks_op(id, k) <==> old(self).tracks_op(id, k)),
    {
        let ghost before = self.entries@;
        let ghost gone = before[i as int];
        self.entries.remove(i);
        proof {
            let s = self.entries@;
            assert forall|a: int, b: int|
                0 <= a < s.len() && 0 <= b < s.len() && a != b implies kind_key()(#[trigger] s[a])
                != kind_key()(#[trigger] s[b]) by {
                let a0 = if a < i { a } else { a + 1 };
                let b0 = if b < i { b } else { b + 1 };
                assert(s[a] == before[a0] && s[b] == before[b0]);
            }
            assert forall|k: OpKind| has_key(s, k, kind_key()) <==> (k != gone.kind && has_key(before, k, kind_key())) by {
                if has_key(s, k, kind_key()) {
                    let a = choose|a: int| 0 <= a < s.len() && kind_key()(#[trigger] s[a]) == k;
                    let a0 = if a < i { a } else { a + 1 };
                    assert(s[a] == before[a0]);
                    assert(kind_key()(before[a0]) == k);
                    assert(a0 != i);
                }
                if k != gone.kind && has_key(before, k, kind_key()) {
                    let a0 = choose|a: int| 0 <= a < before.len() && kind_key()(#[trigger] before[a]) == k;
                    let a = if a0 < i { a0 } else { a0 - 1 };
                    assert(a0 != i);
                    assert(s[a] == before[a0]);
                    assert(kind_key()(s[a]) == k);
                }
            }
            assert forall|id: u64, k: OpKind| k != gone.kind implies #[trigger] has_op(s, id, k) <==> has_op(before, id, k) by {
                if exists|a: int| 0 <= a < s.len() && #[trigger] s[a] == (PendingOp { id, kind: k }) {
                    let a = choose|a: int| 0 <= a < s.len() && #[trigger] s[a] == (PendingOp { id, kind: k });
                    let a0 = if a < i { a } else { a + 1 };
                    assert(s[a] == before[a0]);
                }
                if exists|a: int| 0 <= a < before.len() && #[trigger] before[a] == (PendingOp { id, kind: k }) {
                    let a0 = choose|a: int| 0 <= a < before.len() && #[trigger] before[a] == (PendingOp { id, kind: k });
                    let a = if a0 < i { a0 } else { a0 - 1 };
                    assert(a0 != i);
                    assert(s[a] == before[a0]);
                }
            }
        }
    }

    /// Harvests the operation `id` of kind `k`: where it is tracked its entry
    /// is removed and `true` returned; otherwise nothing changes.
    pub fn harvest(&mut self, id: u64, k: OpKind) -> (r: bool)
        requires
            old(self).wf(),
        ensures
            final(self).wf(),
            r == old(self).tracks_op(id, k),
            r ==> !final(self).tracks(k) && final(self).next_id == old(self).next_id
                && forall|k2: OpKind| k2 != k ==> (#[trigger] final(self).tracks(k2) <==> old(self).tracks(k2)),
            r ==> forall|id2: u64, k2: OpKind| k2 != k ==> (#[trigger] final(self).tracks_op(id2, k2) <==> old(self).tracks_op(id2, k2)),
            !r ==> *final(self) == *old(self),
    {
        match self.index_of(k) {
            Some(i) => {
                if self.entries[i].id == id {
                    assert(self.entries@[i as int] == (PendingOp { id, kind: k }));
                    self.remove_at(i);
                    true
                } else {
                    proof {
                        if self.tracks_op(id, k) {
                            let a = choose|a: int| 0 <= a < self.entries@.len() && #[trigger] self.entries@[a] == (PendingOp { id, kind: k });
                            assert(kind_key()(self.entries@[a]) == kind_key()(self.entries@[i as int]));
                        }
                    }
                    false
                }
            },
            None => {
                proof {
                    if self.tracks_op(id, k) {
                        let a = choose|a: int| 0 <= a < self.entries@.len() && #[trigger] self.entries@[a] == (PendingOp { id, kind: k });
                        assert(kind_key()(self.entries@[a]) == k);
                    }
                }
                false
            },
        }
    }

    /// Stops tracking every operation but the one of kind `k`, if any; the
    /// results of the others will be recognised as stale.
    pub fn keep_only(&mut self, k: OpKind)
        requires
            old(self).wf(),
        ensures
            final(self).wf(),
            final(self).next_id == old(self).next_id,
            forall|id: u64| #[trigger] old(self).tracks_op(id, k) ==> final(self).entries@ == seq![
                PendingOp { id, kind: k },
            ],
            !old(self).tracks(k) ==> final(self).entries@ == Seq::<PendingOp>::empty(),
    {
        match self.index_of(k) {
            Some(i) => {
                let op = self.entries[i];
                proof {
                    assert forall|id: u64| #[trigger] self.tracks_op(id, k) implies op.id == id by {
                        let a = choose|a: int| 0 <= a < self.entries@.len() && #[trigger] self.entries@[a]
                            == (PendingOp { id, kind: k });
                        assert(kind_key()(self.entries@[a]) == kind_key()(self.entries@[i as int]));
                    }
                }
                self.entries = vec![op];
            },
            None => {
                self.entries = Vec::new();
            },
        }
    }

    /// Stops tracking every operation; their results will be recognised as stale.
    pub fn forget_all(&mut self)
        requires
            old(self).wf(),
        ensures
            final(self).wf(),
            final(self).entries@ == Seq::<PendingOp>::empty(),
            final(self).next_id == old(self).next_id,
    {
        self.entries = Vec::new();
    }
}

/// No kind ever has more than one operation in flight, and after its
/// operation is harvested a kind has none until the next spawn.
pub proof fn lemma_at_most_one_per_kind(t: TaskSupervisor, k: OpKind)
    requires
        t.wf(),
    ensures
        count_kind(t.entries@, k) <= 1,
        !t.tracks(k) ==> count_kind(t.entries@, k) == 0,
{
    lemma_count_unique(t.entries@, k);
}

proof fn lemma_count_unique(s: Seq<PendingOp>, k: OpKind)
    requires
        keys_unique(s, kind_key()),
    ensures
        count_kind(s, k) <= 1,
        !has_key(s, k, kind_key()) ==> count_kind(s, k) == 0,
        count_kind(s, k) == 0 ==> !has_key(s, k, kind_key()),
    decreases s.len(),
{
    if s.len() > 0 {
        let p = s.drop_last();
        assert(keys_unique(p, kind_key())) by {
            assert forall|i: int, j: int|
                0 <= i < p.len() && 0 <= j < p.len() && i != j implies kind_key()(#[trigger] p[i])
                != kind_key()(#[trigger] p[j]) by {
                assert(p[i] == s[i] && p[j] == s[j]);
            }
        }
        lemma_count_unique(p, k);
        if s.last().kind == k {
            assert(!has_key(p, k, kind_key())) by {
                if has_key(p, k, kind_key()) {
                    let i = choose|i: int| 0 <= i < p.len() && kind_key()(#[trigger] p[i]) == k;
                    assert(s[i] == p[i]);
                    assert(kind_key()(s[s.len() - 1]) == k);
                }
            }
            assert(kind_key()(s[s.len() - 1]) == k);
        } else {
            if has_key(p, k, kind_key()) {
                let i = choose|i: int| 0 <= i < p.len() && kind_key()(#[trigger] p[i]) == k;
                assert(s[i] == p[i]);
                assert(kind_key()(s[i]) == k);
            }
            if has_key(s, k, kind_key()) {
                let i = choose|i: int| 0 <= i < s.len() && kind_key()(#[trigger] s[i]) == k;
                assert(i != s.len() - 1);
                assert(p[i] == s[i]);
                assert(kind_key()(p[i]) == k);
            }
        }
    }
}

/// Adding an entry keeps every operation and kind that was tracked.
pub proof fn lemma_push_keeps(s: Seq<PendingOp>, x: PendingOp)
    ensures
        forall|id: u64, k: OpKind| #[trigger] has_op(s, id, k) ==> has_op(s.push(x), id, k),
        forall|k: OpKind| #[trigger] has_key(s.push(x), k, kind_key()) <==> (has_key(s, k, kind_key()) || k == x.kind),
{
    let t = s.push(x);
    assert forall|id: u64, k: OpKind| #[trigger] has_op(s, id, k) implies has_op(t, id, k) by {
        let i = choose|i: int| 0 <= i < s.len() && #[trigger] s[i] == (PendingOp { id, kind: k });
        assert(t[i] == s[i]);
    }
    assert forall|k: OpKind| #[trigger] has_key(t, k, kind_key()) <==> (has_key(s, k, kind_key()) || k == x.kind) by {
        if has_key(s, k, kind_key()) {
            let i = choose|i: int| 0 <= i < s.len() && kind_key()(#[trigger] s[i]) == k;
            assert(t[i] == s[i]);
        }
        if k == x.kind {
            assert(kind_key()(t[s.len() as int]) == k);
        }
        if has_key(t, k, kind_key()) {
            let i = choose|i: int| 0 <= i < t.len() && kind_key()(#[trigger] t[i]) == k;
            if i < s.len() {
                assert(t[i] == s[i]);
            }
        }
    }
}

} // verus!
