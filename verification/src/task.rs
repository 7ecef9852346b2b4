//! Deferred asynchronous work as a value. A `Task` never runs anything
//! itself: it is a batch of operations the caller hands to an external
//! scheduler, and each operation re-enters the system later as the
//! message stored here.

use vstd::prelude::*;

verus! {

/// A batch of deferred operations, tagged with the message each one
/// yields once the scheduler has run it. The view of a task is the
/// sequence of those messages, in order.
#[derive(Clone, Debug, PartialEq, Eq)]
pub struct Task<M> {
    pub ops: Vec<M>,
}

impl<M> View for Task<M> {
    type V = Seq<M>;

    open spec fn view(&self) -> Seq<M> {
        self.ops@
    }
}

impl<M> Task<M> {
    /// The empty task: nothing to schedule.
    pub fn none() -> (t: Self)
        ensures
            t@ == Seq::<M>::empty(),
    {
        Task { ops: Vec::new() }
    }

    /// A task holding a single deferred operation.
    pub fn single(op: M) -> (t: Self)
        ensures
            t@ == seq![op],
    {
        let mut ops: Vec<M> = Vec::new();
        ops.push(op);
        proof {
            assert(ops@ =~= seq![op]);
        }
        Task { ops }
    }

    /// True when the task schedules nothing.
    pub fn is_empty(&self) -> (r: bool)
        ensures
            r == (self@.len() == 0),
    {
        self.ops.len() == 0
    }

    /// Number of deferred operations.
    pub fn len(&self) -> (n: usize)
        ensures
            n == self@.len(),
    {
        self.ops.len()
    }

    /// Re-tag every deferred operation for its outer consumer, keeping
    /// the order. Each output message is one `f` admits for the input
    /// message in the same place.
    pub fn map<N, F: Fn(M) -> N>(self, f: F) -> (r: Task<N>)
        requires
            forall|m: M| #[trigger] f.requires((m,)),
        ensures
            r@.len() == self@.len(),
            forall|i: int| 0 <= i < self@.len() ==> f.ensures((self@[i],), #[trigger] r@[i]),
    {
        let ghost orig: Seq<M> = self.ops@;
        let mut ops: Vec<M> = self.ops;
        let mut out: Vec<N> = Vec::new();
        while ops.len() > 0
            invariant
                forall|m: M| #[trigger] f.requires((m,)),
                out@.len() + ops@.len() == orig.len(),
                ops@ == orig.subrange(out@.len() as int, orig.len() as int),
                forall|i: int| 0 <= i < out@.len() ==> f.ensures((orig[i],), #[trigger] out@[i]),
            decreases ops@.len(),
        {
            let ghost done: int = out@.len() as int;
            let m = ops.remove(0);
            proof {
                assert(m == orig[done]);
                assert(ops@ =~= orig.subrange(done + 1, orig.len() as int));
            }
            let n = f(m);
            out.push(n);
        }
        Task { ops: out }
    }
}

} // verus!
