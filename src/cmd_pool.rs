//! Recycling of command buffers and completion fences.
//!
//! Command buffers and fences are driver handles, held here as their raw
//! 64-bit values. The pool decides which buffer may be handed out and when a
//! submitted batch may be taken apart; talking to the driver is the caller's
//! part.
use vstd::prelude::*;
use vstd::seq_lib::*;

verus! {

broadcast use vstd::seq_lib::group_to_multiset_ensures, vstd::multiset::group_multiset_axioms;

/// Command buffers recorded for one submission, with the fence that the
/// submission signals when the device is done with them.
pub struct CmdBatch {
    pub fence: u64,
    pub bufs: Vec<u64>,
}

/// The buffers of a sequence of batches, in order.
pub open spec fn flat_bufs(s: Seq<CmdBatch>) -> Seq<u64>
    decreases s.len(),
{
    if s.len() == 0 {
        Seq::empty()
    } else {
        flat_bufs(s.drop_last()) + s.last().bufs@
    }
}

/// The fences of a sequence of batches, in order.
pub open spec fn fences_of(s: Seq<CmdBatch>) -> Seq<u64> {
    s.map_values(|b: CmdBatch| b.fence)
}

pub proof fn lemma_flat_bufs_push(s: Seq<CmdBatch>, b: CmdBatch)
    ensures
        flat_bufs(s.push(b)) == flat_bufs(s) + b.bufs@,
{
    assert(s.push(b).drop_last() =~= s);
}

/// Among the first `n` in-flight batches, those whose fence has not signaled.
pub open spec fn kept(a: Seq<CmdBatch>, signaled: Seq<bool>, n: int) -> Seq<CmdBatch>
    decreases n,
{
    if n <= 0 {
        Seq::empty()
    } else if signaled[n - 1] {
        kept(a, signaled, n - 1)
    } else {
        kept(a, signaled, n - 1).push(a[n - 1])
    }
}

/// Among the first `n` in-flight batches, those whose fence has signaled.
pub open spec fn released(a: Seq<CmdBatch>, signaled: Seq<bool>, n: int) -> Seq<CmdBatch>
    decreases n,
{
    if n <= 0 {
        Seq::empty()
    } else if signaled[n - 1] {
        released(a, signaled, n - 1).push(a[n - 1])
    } else {
        released(a, signaled, n - 1)
    }
}

/// A pool of command buffers with one batch being recorded, batches in flight
/// and spare batches whose fences can be reused.
pub struct CmdPool {
    free_cmd_bufs: Vec<u64>,
    active_awaiting_lists: Vec<CmdBatch>,
    free_awaiting_lists: Vec<CmdBatch>,
    current_awaiting_list: CmdBatch,
}

impl CmdPool {
    /// Buffers that can be handed out.
    pub closed spec fn free_bufs(&self) -> Seq<u64> {
        self.free_cmd_bufs@
    }

    /// Batches submitted to the device, oldest first.
    pub closed spec fn in_flight(&self) -> Seq<CmdBatch> {
        self.active_awaiting_lists@
    }

    /// Fences of finished batches, ready to record another batch.
    pub closed spec fn spare_fences(&self) -> Seq<u64> {
        fences_of(self.free_awaiting_lists@)
    }

    /// The batch being recorded.
    pub closed spec fn recording(&self) -> CmdBatch {
        self.current_awaiting_list
    }

    /// The fence of the batch being recorded.
    pub open spec fn recording_fence(&self) -> u64 {
        self.recording().fence
    }

    /// Buffers handed out for the batch being recorded.
    pub open spec fn recording_bufs(&self) -> Seq<u64> {
        self.recording().bufs@
    }

    /// Buffers of the batches in flight.
    pub open spec fn in_flight_bufs(&self) -> Seq<u64> {
        flat_bufs(self.in_flight())
    }

    /// Every buffer that the pool knows of, wherever it stands.
    pub open spec fn all_bufs(&self) -> Seq<u64> {
        self.free_bufs() + self.recording_bufs() + self.in_flight_bufs()
    }

    /// A buffer stands in one place at most, and spare batches hold no buffer.
    pub closed spec fn wf(&self) -> bool {
        &&& self.all_bufs().no_duplicates()
        &&& forall|i: int|
            0 <= i < self.free_awaiting_lists@.len()
                ==> (#[trigger] self.free_awaiting_lists@[i]).bufs@.len() == 0
    }

    /// A pool over freshly allocated buffers, recording under `fence`.
    pub fn create(bufs: Vec<u64>, fence: u64) -> (r: CmdPool)
        requires
            bufs@.no_duplicates(),
        ensures
            r.wf(),
            r.free_bufs() == bufs@,
            r.in_flight().len() == 0,
            r.spare_fences().len() == 0,
            r.recording_fence() == fence,
            r.recording_bufs().len() == 0,
    {
        let r = CmdPool {
            free_cmd_bufs: bufs,
            active_awaiting_lists: Vec::new(),
            free_awaiting_lists: Vec::new(),
            current_awaiting_list: CmdBatch { fence, bufs: Vec::new() },
        };
        assert(r.all_bufs() =~= bufs@);
        r
    }

    /// Hands out a free buffer and records it in the current batch; `None`
    /// when no buffer is free.
    pub fn get_buf(&mut self) -> (r: Option<u64>)
        requires
            old(self).wf(),
        ensures
            final(self).wf(),
            old(self).free_bufs().len() == 0 <==> r is None,
            r is None ==> *final(self) == *old(self),
            r matches Some(b) ==> {
                &&& b == old(self).free_bufs().last()
                &&& final(self).free_bufs() == old(self).free_bufs().drop_last()
                &&& final(self).recording_bufs() == old(self).recording_bufs().push(b)
                &&& final(self).in_flight() == old(self).in_flight()
                &&& final(self).spare_fences() == old(self).spare_fences()
                &&& final(self).recording_fence() == old(self).recording_fence()
                &&& !old(self).in_flight_bufs().contains(b)
                &&& !old(self).recording_bufs().contains(b)
            },
    {
        if self.free_cmd_bufs.len() == 0 {
            return None;
        }
        match self.free_cmd_bufs.pop() {
            None => None,
            Some(b) => {
                proof {
                    let f = old(self).free_bufs();
                    let c = old(self).recording_bufs();
                    let a = old(self).in_flight_bufs();
                    let all = old(self).all_bufs();
                    assert(all[f.len() - 1] == b);
                    if a.contains(b) {
                        let k = choose|k: int| 0 <= k < a.len() && a[k] == b;
                        assert(all[f.len() + c.len() + k] == b);
                    }
                    if c.contains(b) {
                        let k = choose|k: int| 0 <= k < c.len() && c[k] == b;
                        assert(all[f.len() + k] == b);
                    }
                }
                self.current_awaiting_list.bufs.push(b);
                proof {
                    let f = old(self).free_bufs();
                    let c = old(self).recording_bufs();
                    let a = old(self).in_flight_bufs();
                    assert(f =~= f.drop_last().push(b));
                    lemma_multiset_commutative(f.drop_last().push(b), c);
                    lemma_multiset_commutative(f.drop_last().push(b) + c, a);
                    lemma_multiset_commutative(f.drop_last(), c.push(b));
                    lemma_multiset_commutative(f.drop_last() + c.push(b), a);
                    lemma_same_items_no_dup(old(self).all_bufs(), self.all_bufs());
                }
                Some(b)
            },
        }
    }

    /// The fence that the submission of the current batch is to signal.
    pub fn current_fence(&self) -> (r: u64)
        ensures
            r == self.recording_fence(),
    {
        self.current_awaiting_list.fence
    }

    /// Whether no spare fence is left, so that the next submission needs a
    /// new one.
    pub fn needs_fence(&self) -> (r: bool)
        ensures
            r == (self.spare_fences().len() == 0),
    {
        self.free_awaiting_lists.len() == 0
    }

    /// Fences of the batches in flight, oldest first.
    pub fn in_flight_fences(&self) -> (r: Vec<u64>)
        ensures
            r@ == fences_of(self.in_flight()),
    {
        let mut r: Vec<u64> = Vec::new();
        let mut i: usize = 0;
        while i < self.active_awaiting_lists.len()
            invariant
                i <= self.active_awaiting_lists@.len(),
                r@ == fences_of(self.active_awaiting_lists@.take(i as int)),
            decreases self.active_awaiting_lists@.len() - i,
        {
            r.push(self.active_awaiting_lists[i].fence);
            i = i + 1;
            assert(fences_of(self.active_awaiting_lists@.take(i as int)) =~= r@);
        }
        assert(self.active_awaiting_lists@.take(i as int) =~= self.active_awaiting_lists@);
        r
    }

    /// Marks the current batch as submitted under its fence and starts a new
    /// one. The new batch reuses a spare fence when there is one, else takes
    /// `fresh_fence`.
    pub fn submit_frame(&mut self, fresh_fence: Option<u64>)
        requires
            old(self).wf(),
            old(self).spare_fences().len() > 0 || fresh_fence is Some,
        ensures
            final(self).wf(),
            final(self).in_flight() == old(self).in_flight().push(old(self).recording()),
            final(self).free_bufs() == old(self).free_bufs(),
            final(self).recording_bufs().len() == 0,
            old(self).spare_fences().len() > 0 ==> {
                &&& final(self).recording_fence() == old(self).spare_fences().last()
                &&& final(self).spare_fences() == old(self).spare_fences().drop_last()
            },
            old(self).spare_fences().len() == 0 ==> {
                &&& fresh_fence == Some(final(self).recording_fence())
                &&& final(self).spare_fences() == old(self).spare_fences()
            },
    {
        let new_list = match self.free_awaiting_lists.pop() {
            Some(list) => list,
            None => {
                let fence = match fresh_fence {
                    Some(f) => f,
                    None => 0,
                };
                CmdBatch { fence, bufs: Vec::new() }
            },
        };
        proof {
            let fl = old(self).free_awaiting_lists@;
            if fl.len() > 0 {
                assert(new_list == fl.last());
                assert(fences_of(fl.drop_last()) =~= fences_of(fl).drop_last());
            }
        }
        let mut list = new_list;
        std::mem::swap(&mut self.current_awaiting_list, &mut list);
        self.active_awaiting_lists.push(list);
        proof {
            let f = old(self).free_bufs();
            let c = old(self).recording_bufs();
            let a = old(self).in_flight_bufs();
            lemma_flat_bufs_push(old(self).in_flight(), old(self).recording());
            assert(self.in_flight_bufs() == a + c);
            assert(self.all_bufs() =~= f + (a + c));
            assert(old(self).all_bufs() =~= f + (c + a));
            lemma_multiset_commutative(f, a + c);
            lemma_multiset_commutative(f, c + a);
            lemma_multiset_commutative(a, c);
            lemma_multiset_commutative(c, a);
            lemma_same_items_no_dup(old(self).all_bufs(), self.all_bufs());
        }
    }

    /// Takes apart every batch in flight whose fence reads signaled
    /// (`signaled[i]` for the `i`-th batch in flight): its buffers go back to
    /// the free list and its fence becomes spare. Returns those fences, which
    /// the device must reset before their reuse.
    pub fn evaluate_active_fences(&mut self, signaled: &Vec<bool>) -> (reset: Vec<u64>)
        requires
            old(self).wf(),
            signaled@.len() == old(self).in_flight().len(),
        ensures
            final(self).wf(),
            final(self).in_flight() == kept(
                old(self).in_flight(),
                signaled@,
                old(self).in_flight().len() as int,
            ),
            final(self).free_bufs() == old(self).free_bufs() + flat_bufs(
                released(old(self).in_flight(), signaled@, old(self).in_flight().len() as int),
            ),
            reset@ == fences_of(
                released(old(self).in_flight(), signaled@, old(self).in_flight().len() as int),
            ),
            final(self).spare_fences() == old(self).spare_fences() + reset@,
            final(self).recording() == old(self).recording(),
    {
        let ghost a = self.active_awaiting_lists@;
        let ghost n = a.len() as int;
        let mut reset: Vec<u64> = Vec::new();
        let mut i: usize = 0;
        let mut j: usize = 0;
        while j < signaled.len()
            invariant
                old(self).wf(),
                a == old(self).in_flight(),
                n == a.len(),
                signaled@.len() == n,
                0 <= j <= n,
                i == kept(a, signaled@, j as int).len(),
                self.active_awaiting_lists@ == kept(a, signaled@, j as int) + a.subrange(
                    j as int,
                    n,
                ),
                self.free_cmd_bufs@ == old(self).free_bufs() + flat_bufs(
                    released(a, signaled@, j as int),
                ),
                reset@ == fences_of(released(a, signaled@, j as int)),
                fences_of(self.free_awaiting_lists@) == old(self).spare_fences() + reset@,
                forall|k: int|
                    0 <= k < self.free_awaiting_lists@.len()
                        ==> (#[trigger] self.free_awaiting_lists@[k]).bufs@.len() == 0,
                self.current_awaiting_list == old(self).recording(),
            decreases n - j,
        {
            let ghost before = self.active_awaiting_lists@;
            let ghost fl = self.free_awaiting_lists@;
            assert(i < self.active_awaiting_lists.len());
            assert(before[i as int] == a[j as int]);
            if signaled[j] {
                let mut list = self.active_awaiting_lists.remove(i);
                let fence = list.fence;
                self.free_cmd_bufs.append(&mut list.bufs);
                self.free_awaiting_lists.push(list);
                reset.push(fence);
                proof {
                    lemma_flat_bufs_push(released(a, signaled@, j as int), a[j as int]);
                    assert(fences_of(released(a, signaled@, j + 1)) =~= fences_of(
                        released(a, signaled@, j as int),
                    ).push(fence));
                    assert(fences_of(fl.push(list)) =~= fences_of(fl).push(fence));
                }
            } else {
                i = i + 1;
            }
            j = j + 1;
            assert(self.active_awaiting_lists@ =~= kept(a, signaled@, j as int) + a.subrange(
                j as int,
                n,
            ));
        }
        proof {
            assert(a.subrange(n, n) =~= Seq::<CmdBatch>::empty());
            assert(self.active_awaiting_lists@ =~= kept(a, signaled@, n));
            assert(a.take(n) =~= a);
            lemma_split_items(a, signaled@, n);
            let f = old(self).free_bufs();
            let c = old(self).recording_bufs();
            let k = flat_bufs(kept(a, signaled@, n));
            let r = flat_bufs(released(a, signaled@, n));
            lemma_multiset_commutative(f, c);
            lemma_multiset_commutative(f + c, flat_bufs(a));
            lemma_multiset_commutative(f, r);
            lemma_multiset_commutative(f + r, c);
            lemma_multiset_commutative(f + r + c, k);
            lemma_same_items_no_dup(old(self).all_bufs(), self.all_bufs());
        }
        reset
    }

    /// Ends the pool's life. Returns the fences of the batches in flight, to
    /// be waited for, and every fence the pool holds, to be destroyed.
    pub fn shutdown(&mut self) -> (r: (Vec<u64>, Vec<u64>))
        ensures
            r.0@ == fences_of(old(self).in_flight()),
            r.1@ == r.0@ + old(self).spare_fences() + seq![old(self).recording_fence()],
            final(self).in_flight().len() == 0,
    {
        let wait = self.in_flight_fences();
        self.active_awaiting_lists.clear();
        let mut destroy: Vec<u64> = Vec::new();
        let mut i: usize = 0;
        while i < wait.len()
            invariant
                i <= wait@.len(),
                destroy@ == wait@.take(i as int),
            decreases wait@.len() - i,
        {
            destroy.push(wait[i]);
            i = i + 1;
            assert(destroy@ =~= wait@.take(i as int));
        }
        assert(destroy@ =~= wait@);
        let mut i: usize = 0;
        while i < self.free_awaiting_lists.len()
            invariant
                i <= self.free_awaiting_lists@.len(),
                destroy@ == wait@ + fences_of(self.free_awaiting_lists@.take(i as int)),
            decreases self.free_awaiting_lists@.len() - i,
        {
            destroy.push(self.free_awaiting_lists[i].fence);
            i = i + 1;
            assert(destroy@ =~= wait@ + fences_of(self.free_awaiting_lists@.take(i as int)));
        }
        assert(self.free_awaiting_lists@.take(i as int) =~= self.free_awaiting_lists@);
        destroy.push(self.current_awaiting_list.fence);
        assert(destroy@ =~= wait@ + old(self).spare_fences() + seq![old(self).recording_fence()]);
        (wait, destroy)
    }
}

/// A buffer of the `j`-th batch is among the buffers of all batches.
proof fn lemma_in_batch_in_flat(a: Seq<CmdBatch>, j: int, x: u64)
    requires
        0 <= j < a.len(),
        a[j].bufs@.contains(x),
    ensures
        flat_bufs(a).contains(x),
    decreases a.len(),
{
    let p = a.drop_last();
    assert(flat_bufs(a) == flat_bufs(p) + a.last().bufs@);
    if j == a.len() - 1 {
        let m = choose|m: int| 0 <= m < a[j].bufs@.len() && a[j].bufs@[m] == x;
        assert(flat_bufs(a)[flat_bufs(p).len() + m] == x);
    } else {
        lemma_in_batch_in_flat(p, j, x);
        let m = choose|m: int| 0 <= m < flat_bufs(p).len() && flat_bufs(p)[m] == x;
        assert(flat_bufs(a)[m] == x);
    }
}

/// When no buffer is repeated, a buffer lies in one batch only.
proof fn lemma_one_batch(a: Seq<CmdBatch>, j: int, k: int, x: u64)
    requires
        flat_bufs(a).no_duplicates(),
        0 <= j < a.len(),
        0 <= k < a.len(),
        a[j].bufs@.contains(x),
        a[k].bufs@.contains(x),
    ensures
        j == k,
    decreases a.len(),
{
    let p = a.drop_last();
    let l = a.last().bufs@;
    let f = flat_bufs(p);
    assert(flat_bufs(a) == f + l);
    let last = a.len() - 1;
    if j != k {
        if j < last && k < last {
            assert(f.no_duplicates()) by {
                assert forall|u: int, v: int| 0 <= u < f.len() && 0 <= v < f.len() && u != v
                    implies f[u] != f[v] by {
                    assert(flat_bufs(a)[u] == f[u]);
                    assert(flat_bufs(a)[v] == f[v]);
                }
            }
            lemma_one_batch(p, j, k, x);
        } else {
            let o = if j == last { k } else { j };
            lemma_in_batch_in_flat(p, o, x);
            let u = choose|u: int| 0 <= u < f.len() && f[u] == x;
            let v = choose|v: int| 0 <= v < l.len() && l[v] == x;
            assert(flat_bufs(a)[u] == x);
            assert(flat_bufs(a)[f.len() + v] == x);
        }
    }
}

/// A buffer is among those of the released batches exactly when its batch
/// was released.
proof fn lemma_released_bufs(a: Seq<CmdBatch>, signaled: Seq<bool>, n: int, x: u64)
    requires
        0 <= n <= a.len(),
        signaled.len() == a.len(),
    ensures
        flat_bufs(released(a, signaled, n)).contains(x) <==> exists|j: int|
            0 <= j < n && signaled[j] && (#[trigger] a[j]).bufs@.contains(x),
    decreases n,
{
    if n > 0 {
        lemma_released_bufs(a, signaled, n - 1, x);
        if signaled[n - 1] {
            let r = released(a, signaled, n - 1);
            lemma_flat_bufs_push(r, a[n - 1]);
            if a[n - 1].bufs@.contains(x) {
                let l = a[n - 1].bufs@;
                let m = choose|m: int| 0 <= m < l.len() && l[m] == x;
                assert(flat_bufs(released(a, signaled, n))[flat_bufs(r).len() + m] == x);
            }
            if flat_bufs(r).contains(x) {
                let m = choose|m: int| 0 <= m < flat_bufs(r).len() && flat_bufs(r)[m] == x;
                assert(flat_bufs(released(a, signaled, n))[m] == x);
            }
        }
    }
}

/// Reclaiming frees the buffers of a batch in flight if and only if the
/// batch's fence read signaled: after `evaluate_active_fences` the free list
/// is the old one followed by the buffers of the released batches, and a
/// buffer of the `k`-th batch in flight is then free exactly when
/// `signaled[k]` holds.
pub proof fn lemma_reclaimed_iff_signaled(p: CmdPool, signaled: Seq<bool>, k: int, x: u64)
    requires
        p.wf(),
        signaled.len() == p.in_flight().len(),
        0 <= k < signaled.len(),
        p.in_flight()[k].bufs@.contains(x),
    ensures
        (p.free_bufs() + flat_bufs(
            released(p.in_flight(), signaled, p.in_flight().len() as int),
        )).contains(x) <==> signaled[k],
{
    let a = p.in_flight();
    let n = a.len() as int;
    let all = p.all_bufs();
    let f = p.free_bufs();
    let c = p.recording_bufs();
    let fa = flat_bufs(a);
    lemma_released_bufs(a, signaled, n, x);
    lemma_in_batch_in_flat(a, k, x);
    assert(fa.no_duplicates()) by {
        assert forall|u: int, v: int| 0 <= u < fa.len() && 0 <= v < fa.len() && u != v
            implies fa[u] != fa[v] by {
            assert(all[f.len() + c.len() + u] == fa[u]);
            assert(all[f.len() + c.len() + v] == fa[v]);
        }
    }
    assert(!f.contains(x)) by {
        if f.contains(x) {
            let u = choose|u: int| 0 <= u < f.len() && f[u] == x;
            let v = choose|v: int| 0 <= v < fa.len() && fa[v] == x;
            assert(all[u] == x);
            assert(all[f.len() + c.len() + v] == x);
        }
    }
    let r = flat_bufs(released(a, signaled, n));
    if signaled[k] {
        assert(r.contains(x));
        let m = choose|m: int| 0 <= m < r.len() && r[m] == x;
        assert((f + r)[f.len() + m] == x);
    } else {
        if (f + r).contains(x) {
            let m = choose|m: int| 0 <= m < (f + r).len() && (f + r)[m] == x;
            if m < f.len() {
                assert(f[m] == x);
            } else {
                assert(r[m - f.len()] == x);
                let j = choose|j: int| 0 <= j < n && signaled[j] && (#[trigger] a[j]).bufs@.contains(x);
                lemma_one_batch(a, j, k, x);
            }
        }
    }
}

/// The buffers of the first `n` batches in flight are those of the batches
/// kept and those of the batches released.
proof fn lemma_split_items(a: Seq<CmdBatch>, signaled: Seq<bool>, n: int)
    requires
        0 <= n <= a.len(),
    ensures
        flat_bufs(a.take(n)).to_multiset() =~= flat_bufs(kept(a, signaled, n)).to_multiset().add(
            flat_bufs(released(a, signaled, n)).to_multiset(),
        ),
    decreases n,
{
    if n > 0 {
        lemma_split_items(a, signaled, n - 1);
        assert(a.take(n) =~= a.take(n - 1).push(a[n - 1]));
        lemma_flat_bufs_push(a.take(n - 1), a[n - 1]);
        lemma_multiset_commutative(flat_bufs(a.take(n - 1)), a[n - 1].bufs@);
        if signaled[n - 1] {
            lemma_flat_bufs_push(released(a, signaled, n - 1), a[n - 1]);
            lemma_multiset_commutative(flat_bufs(released(a, signaled, n - 1)), a[n - 1].bufs@);
        } else {
            lemma_flat_bufs_push(kept(a, signaled, n - 1), a[n - 1]);
            lemma_multiset_commutative(flat_bufs(kept(a, signaled, n - 1)), a[n - 1].bufs@);
        }
    }
}

/// Two sequences with the same items, one without duplicates: so is the other.
proof fn lemma_same_items_no_dup(a: Seq<u64>, b: Seq<u64>)
    requires
        a.no_duplicates(),
        a.to_multiset() =~= b.to_multiset(),
    ensures
        b.no_duplicates(),
{
    a.lemma_multiset_has_no_duplicates();
    b.lemma_multiset_has_no_duplicates_conv();
}

} // verus!
