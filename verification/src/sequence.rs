//! Command sequencing: an ordered dispatch channel whose every submission
//! returns a completion token, with dependency lists guaranteeing that an
//! operation starts only after all its prerequisites have completed.

use vstd::prelude::*;

use crate::error::HostError;

verus! {

/// The positional type of one bound kernel argument.
#[derive(Clone, Copy, Debug, PartialEq, Eq, Structural)]
pub enum KernelArg {
    Scalar,
    BufferObject,
    ImageObject,
    SvmPointer,
}

/// The kind of one submitted device operation; a kernel dispatch carries
/// its global work sizes and its positionally bound arguments.
#[derive(Debug)]
pub enum OpKind {
    KernelDispatch { work_sizes: Vec<usize>, args: Vec<KernelArg> },
    FillImage,
    ReadImage,
    SvmMapWrite,
    SvmMapRead,
    SvmUnmap,
}

/// One operation submitted to the queue, with the completion tokens of the
/// operations it must wait on. A token is the index of an earlier
/// submission on the same sequencer.
#[derive(Debug)]
pub struct Submission {
    pub kind: OpKind,
    pub wait_on: Vec<usize>,
}

/// An ordered dispatch channel. Submissions are recorded in enqueue order;
/// the token returned for a submission is its index, and the tokens the
/// host has blocked on are recorded in wait order.
#[derive(Debug)]
pub struct Sequencer {
    pub ops: Vec<Submission>,
    pub waited: Vec<usize>,
}

impl Sequencer {
    /// Every dependency token names an earlier submission, so the
    /// dependency graph is acyclic by construction.
    pub open spec fn wf(self) -> bool {
        forall|i: int, k: int|
            0 <= i < self.ops@.len() && 0 <= k < self.ops@[i].wait_on@.len() ==> (self.ops@[i].wait_on@[k] as int) < i
    }

    /// Creates an empty queue.
    pub fn new() -> (s: Self)
        ensures
            s.wf(),
            s.ops@.len() == 0,
            s.waited@.len() == 0,
    {
        Sequencer { ops: Vec::new(), waited: Vec::new() }
    }

    /// Submits one operation with its prerequisite tokens and returns its
    /// completion token. Every listed token must come from this sequencer,
    /// that is, name an earlier submission.
    pub fn submit(&mut self, kind: OpKind, wait_on: Vec<usize>) -> (t: usize)
        requires
            old(self).wf(),
            forall|k: int| 0 <= k < wait_on@.len() ==> wait_on@[k] < old(self).ops@.len(),
        ensures
            final(self).wf(),
            t == old(self).ops@.len(),
            final(self).ops@ == old(self).ops@.push(Submission { kind, wait_on: wait_on }),
            final(self).waited@ == old(self).waited@,
    {
        let t = self.ops.len();
        self.ops.push(Submission { kind, wait_on });
        t
    }

    /// Whether a 1- to 3-dimensional global work size is acceptable: no
    /// dimension zero and none over the device limit.
    pub open spec fn work_sizes_ok(sizes: Seq<usize>, max_work_size: usize) -> bool {
        1 <= sizes.len() <= 3 && forall|i: int| 0 <= i < sizes.len() ==> 1 <= #[trigger] sizes[i] <= max_work_size
    }

    /// Dispatches a kernel over a global iteration space. Non-blocking: it
    /// records the submission and returns its token immediately. Fails with
    /// `InvalidWorkSize`, recording nothing, exactly when a dimension is
    /// zero, over the device limit, or the dimension count is not 1 to 3.
    pub fn dispatch_kernel(
        &mut self,
        work_sizes: Vec<usize>,
        args: Vec<KernelArg>,
        max_work_size: usize,
        wait_on: Vec<usize>,
    ) -> (r: Result<usize, HostError>)
        requires
            old(self).wf(),
            forall|k: int| 0 <= k < wait_on@.len() ==> wait_on@[k] < old(self).ops@.len(),
        ensures
            final(self).wf(),
            r is Ok <==> Self::work_sizes_ok(work_sizes@, max_work_size),
            r matches Ok(t) ==> t == old(self).ops@.len() && final(self).ops@ == old(self).ops@.push(
                Submission {
                    kind: OpKind::KernelDispatch { work_sizes: work_sizes, args: args },
                    wait_on: wait_on,
                },
            ) && final(self).waited@ == old(self).waited@,
            r is Err ==> (r matches Err(HostError::InvalidWorkSize)) && *final(self) == *old(self),
    {
        let dims = work_sizes.len();
        if dims < 1 || dims > 3 {
            return Err(HostError::InvalidWorkSize);
        }
        let mut i: usize = 0;
        while i < dims
            invariant
                dims == work_sizes@.len(),
                i <= dims,
                forall|j: int| 0 <= j < i ==> 1 <= #[trigger] work_sizes@[j] <= max_work_size,
                old(self).wf(),
                *self == *old(self),
            decreases dims - i,
        {
            if work_sizes[i] == 0 || work_sizes[i] > max_work_size {
                return Err(HostError::InvalidWorkSize);
            }
            i = i + 1;
        }
        Ok(self.submit(OpKind::KernelDispatch { work_sizes, args }, wait_on))
    }

    /// Blocks the host on one completion token of this sequencer,
    /// recording the wait: results guarded by the token may be inspected
    /// only after this returns.
    pub fn wait(&mut self, token: usize)
        requires
            old(self).wf(),
            token < old(self).ops@.len(),
        ensures
            final(self).wf(),
            final(self).ops@ == old(self).ops@,
            final(self).waited@ == old(self).waited@.push(token),
    {
        self.waited.push(token);
    }
}

/// Whether the operation with completion token `t` completes strictly
/// before position `p` of the completion order.
pub open spec fn completed_before(order: Seq<usize>, t: usize, p: int) -> bool {
    exists|q: int| 0 <= q < p && order[q] == t
}

/// Whether `order` is a possible device-side completion order for `ops`:
/// it completes each submitted operation exactly once, and no operation
/// completes before every operation it waits on has completed.
pub open spec fn respects_dependencies(ops: Seq<Submission>, order: Seq<usize>) -> bool {
    &&& order.len() == ops.len()
    &&& forall|p: int| 0 <= p < order.len() ==> (#[trigger] order[p]) < ops.len()
    &&& order.no_duplicates()
    &&& forall|p: int, k: int|
        0 <= p < order.len() && 0 <= k < ops[order[p] as int].wait_on@.len()
            ==> #[trigger] completed_before(order, ops[order[p] as int].wait_on@[k], p)
}

/// Dependency ordering law: in every completion order that the device
/// model admits, each prerequisite of an operation completes strictly
/// before the operation itself, so its side effects are observed.
pub proof fn lemma_dependency_precedes(ops: Seq<Submission>, order: Seq<usize>, p: int, k: int)
    requires
        respects_dependencies(ops, order),
        0 <= p < order.len(),
        0 <= k < ops[order[p] as int].wait_on@.len(),
    ensures
        completed_before(order, ops[order[p] as int].wait_on@[k], p),
{
}

/// Decides whether a recorded completion order is one the device model
/// admits for the submitted operations: every operation completes exactly
/// once, and none before all of its prerequisites.
pub fn check_order(ops: &Vec<Submission>, order: &Vec<usize>) -> (r: bool)
    ensures
        r == respects_dependencies(ops@, order@),
{
    let n = ops.len();
    if order.len() != n {
        return false;
    }
    let mut seen: Vec<bool> = Vec::new();
    let mut s: usize = 0;
    while s < n
        invariant
            s <= n,
            seen@.len() == s,
            forall|x: int| 0 <= x < s ==> !seen@[x],
        decreases n - s,
    {
        seen.push(false);
        s = s + 1;
    }
    let mut p: usize = 0;
    while p < n
        invariant
            n == ops@.len(),
            order@.len() == n,
            seen@.len() == n,
            p <= n,
            forall|x: usize| x < n ==> (seen@[x as int] <==> #[trigger] completed_before(
                order@,
                x,
                p as int,
            )),
            forall|q: int| 0 <= q < p ==> (#[trigger] order@[q]) < n,
            forall|q1: int, q2: int| 0 <= q1 < q2 < p ==> order@[q1] != order@[q2],
            forall|q: int, k: int|
                0 <= q < p && 0 <= k < ops@[order@[q] as int].wait_on@.len()
                    ==> #[trigger] completed_before(order@, ops@[order@[q] as int].wait_on@[k], q),
        decreases n - p,
    {
        let t = order[p];
        if t >= n {
            return false;
        }
        if seen[t] {
            proof {
                assert(completed_before(order@, t, p as int));
                let q = choose|q: int| 0 <= q < p && order@[q] == t;
                assert(order@[q] == order@[p as int] && q != p);
                assert(!order@.no_duplicates());
            }
            return false;
        }
        let wl = &ops[t].wait_on;
        let m = wl.len();
        let mut k: usize = 0;
        while k < m
            invariant
                n == ops@.len(),
                order@.len() == n,
                seen@.len() == n,
                p < n,
                t < n,
                t == order@[p as int],
                wl@ == ops@[t as int].wait_on@,
                m == wl@.len(),
                k <= m,
                forall|x: usize| x < n ==> (seen@[x as int] <==> #[trigger] completed_before(
                    order@,
                    x,
                    p as int,
                )),
                forall|kk: int| 0 <= kk < k ==> completed_before(order@, #[trigger] wl@[kk], p as int),
            decreases m - k,
        {
            let d = wl[k];
            if d >= n || !seen[d] {
                proof {
                    if respects_dependencies(ops@, order@) {
                        assert(completed_before(
                            order@,
                            ops@[order@[p as int] as int].wait_on@[k as int],
                            p as int,
                        ));
                        let q = choose|q: int| 0 <= q < p && order@[q] == d;
                        assert(order@[q] < n);
                        assert(seen@[d as int]);
                    }
                }
                return false;
            }
            k = k + 1;
        }
        let ghost old_seen = seen@;
        let ghost old_p = p as int;
        seen[t] = true;
        p = p + 1;
        proof {
            assert forall|x: usize| x < n implies (seen@[x as int] <==> completed_before(
                order@,
                x,
                p as int,
            )) by {
                if x == t {
                    assert(0 <= old_p < p && order@[old_p] == x);
                    assert(completed_before(order@, x, p as int));
                } else {
                    if old_seen[x as int] {
                        assert(completed_before(order@, x, old_p));
                        let q = choose|q: int| 0 <= q < old_p && order@[q] == x;
                        assert(0 <= q < p && order@[q] == x);
                        assert(completed_before(order@, x, p as int));
                    }
                    if completed_before(order@, x, p as int) {
                        let q = choose|q: int| 0 <= q < p && order@[q] == x;
                        assert(q != old_p);
                        assert(0 <= q < old_p && order@[q] == x);
                        assert(completed_before(order@, x, old_p));
                    }
                }
            }
            assert(!completed_before(order@, t, old_p));
            assert forall|q1: int, q2: int| 0 <= q1 < q2 < p implies order@[q1] != order@[q2] by {
                if q2 == old_p && order@[q1] == order@[q2] {
                    assert(0 <= q1 < old_p && order@[q1] == t);
                    assert(completed_before(order@, t, old_p));
                }
            }
        }
    }
    proof {
        assert forall|i: int, j: int|
            0 <= i < order@.len() && 0 <= j < order@.len() && i != j implies order@[i]
            != order@[j] by {
            if i < j {
                assert(order@[i] != order@[j]);
            } else {
                assert(order@[j] != order@[i]);
            }
        }
        assert(order@.no_duplicates());
    }
    true
}

} // verus!
