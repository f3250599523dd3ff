//! Bookkeeping of forwarded connections.
//!
//! Each connection accepted from the remote listener is paired with
//! exactly one fresh connection to the local target; the pair lives until
//! either side closes or errors, and the fate of one pair never touches
//! another. The byte copying itself is raw network I/O and runs outside
//! the library; what is verified here is the supervisor's ledger: every
//! pair gets its own local-target connection (identifiers are never
//! reused), finishing one pair removes that pair alone, and teardown on
//! disconnect cancels every pair at once.

use vstd::prelude::*;

verus! {

/// The supervisor's ledger of in-flight forwarded connections.
///
/// `next_conn` is the identifier the next accepted connection will get;
/// `active` holds the identifiers of the pairs currently relaying.
pub struct TunnelRelay {
    pub next_conn: u64,
    pub active: Vec<u64>,
}

impl TunnelRelay {
    /// Well-formedness: every active identifier was issued (is below
    /// `next_conn`) and no identifier is active twice.
    pub open spec fn wf(self) -> bool {
        &&& forall|i: int| 0 <= i < self.active@.len() ==> self.active@[i] < self.next_conn
        &&& forall|i: int, j: int|
            0 <= i < j < self.active@.len() ==> self.active@[i] != self.active@[j]
    }

    /// A fresh ledger with no pairs.
    pub fn new() -> (r: Self)
        ensures
            r.wf(),
            r.active@ == Seq::<u64>::empty(),
            r.next_conn == 0,
    {
        TunnelRelay { next_conn: 0, active: Vec::new() }
    }

    /// A connection arrived at the remote listener: it is paired with a
    /// fresh local-target connection, one no other pair shares.
    pub fn accept(&mut self) -> (id: u64)
        requires
            old(self).wf(),
            old(self).next_conn < u64::MAX,
        ensures
            final(self).wf(),
            id == old(self).next_conn,
            !old(self).active@.contains(id),
            final(self).active@ == old(self).active@.push(id),
            final(self).next_conn == old(self).next_conn + 1,
    {
        let id = self.next_conn;
        self.next_conn = self.next_conn + 1;
        self.active.push(id);
        proof {
            let pre = old(self).active@;
            assert forall|k: int| 0 <= k < pre.len() implies pre[k] != id by {
                assert(pre[k] < id);
            }
            assert(!pre.contains(id));
            assert forall|a: int, b: int|
                0 <= a < b < self.active@.len() implies self.active@[a] != self.active@[b] by {
                if b == pre.len() {
                    assert(self.active@[a] == pre[a]);
                    assert(pre[a] < id);
                } else {
                    assert(self.active@[a] == pre[a]);
                    assert(self.active@[b] == pre[b]);
                }
            }
        }
        id
    }

    /// One side of pair `id` closed or errored: the pair is finished and
    /// removed; every other pair is untouched. Unknown identifiers are
    /// ignored.
    pub fn finish(&mut self, id: u64)
        requires
            old(self).wf(),
        ensures
            final(self).wf(),
            final(self).next_conn == old(self).next_conn,
            !old(self).active@.contains(id) ==> final(self).active@ == old(self).active@,
            old(self).active@.contains(id) ==> exists|i: int|
                0 <= i < old(self).active@.len() && old(self).active@[i] == id
                    && final(self).active@ == old(self).active@.remove(i),
            !final(self).active@.contains(id),
            forall|x: u64|
                x != id ==> (final(self).active@.contains(x) <==> old(self).active@.contains(x)),
    {
        let mut i: usize = 0;
        while i < self.active.len()
            invariant
                old(self).wf(),
                *self == *old(self),
                forall|k: int| 0 <= k < i ==> self.active@[k] != id,
                i <= self.active@.len(),
            decreases self.active@.len() - i,
        {
            if self.active[i] == id {
                self.active.remove(i);
                proof {
                    let pre = old(self).active@;
                    assert(pre.contains(id)) by {
                        assert(pre[i as int] == id);
                    }
                    pre.remove_ensures(i as int);
                    assert((i as int) < pre.len() && pre[i as int] == id && self.active@
                        == pre.remove(i as int));
                    assert forall|a: int, b: int|
                        0 <= a < b < self.active@.len() implies self.active@[a]
                        != self.active@[b] by {
                        let pa: int = if a < i {
                            a
                        } else {
                            a + 1
                        };
                        let pb: int = if b < i {
                            b
                        } else {
                            b + 1
                        };
                        assert(self.active@[a] == pre[pa]);
                        assert(self.active@[b] == pre[pb]);
                        assert(0 <= pa < pb < pre.len());
                        assert(pre[pa] != pre[pb]);
                    }
                    assert forall|k: int|
                        0 <= k < self.active@.len() implies self.active@[k]
                        < self.next_conn by {
                        if k < i {
                            assert(self.active@[k] == pre[k]);
                            assert(pre[k] < old(self).next_conn);
                        } else {
                            assert(self.active@[k] == pre[k + 1]);
                            assert(pre[k + 1] < old(self).next_conn);
                        }
                        assert(self.next_conn == old(self).next_conn);
                    }
                    assert forall|k: int|
                        0 <= k < self.active@.len() implies self.active@[k] != id by {
                        if k < i {
                            assert(self.active@[k] == pre[k]);
                        } else {
                            assert(self.active@[k] == pre[k + 1]);
                            assert((i as int) < k + 1 < pre.len());
                            assert(pre[i as int] != pre[k + 1]);
                        }
                    }
                    assert(!self.active@.contains(id));
                    assert forall|x: u64| x != id && old(self).active@.contains(x) implies self
                        .active@.contains(x) by {
                        let k = choose|k: int| 0 <= k < pre.len() && pre[k] == x;
                        if k < i {
                            assert(self.active@[k] == x);
                        } else if k > i {
                            assert(self.active@[k - 1] == x);
                        }
                    }
                    assert forall|x: u64| self.active@.contains(x) implies old(
                        self,
                    ).active@.contains(x) by {
                        let k = choose|k: int| 0 <= k < self.active@.len() && self.active@[k] == x;
                        if k < i {
                            assert(pre[k] == x);
                        } else {
                            assert(pre[k + 1] == x);
                        }
                    }
                }
                return ;
            }
            i = i + 1;
        }
    }

    /// The controller is disconnecting: every in-flight pair is
    /// cancelled. Issued identifiers stay used up, so later pairs still
    /// get fresh local-target connections.
    pub fn teardown(&mut self)
        requires
            old(self).wf(),
        ensures
            final(self).wf(),
            final(self).active@ == Seq::<u64>::empty(),
            final(self).next_conn == old(self).next_conn,
    {
        self.active.clear();
    }

    /// How many pairs are relaying right now.
    pub fn active_count(&self) -> (n: usize)
        ensures
            n == self.active@.len(),
    {
        self.active.len()
    }
}

/// Law: the pair created for each accepted connection has its own fresh
/// local-target connection — its identifier differs from every pair that
/// was active before it, and both pairs of any two distinct accepts
/// differ.
pub proof fn lemma_accept_fresh(r: TunnelRelay, x: u64)
    requires
        r.wf(),
        r.active@.contains(x),
    ensures
        x != r.next_conn,
{
}

} // verus!
