//! The pool of a batch in flight: completions are queued as operations finish
//! and drained oldest first.

use std::collections::VecDeque;
use vstd::prelude::*;
use crate::execute::{next_state, requests, step, Execution, Request, Response};
use crate::model::{LedgerError, Operation, OperationError, OperationResult};

verus! {

/// What one operation of the batch ended with.
#[derive(Debug, PartialEq, Eq)]
pub struct Completion {
    pub id: usize,
    pub outcome: Result<OperationResult, OperationError>,
}

/// The number of executions that have not finished.
pub open spec fn unfinished(states: Seq<Execution>) -> nat
    decreases states.len(),
{
    if states.len() == 0 {
        0
    } else {
        unfinished(states.drop_last()) + if states.last() == Execution::Finished {
            0nat
        } else {
            1nat
        }
    }
}

/// What a pool holds: the state of each execution, the completions that wait
/// to be drained, oldest first, and the number of completions drained so far.
pub struct PoolView {
    pub states: Seq<Execution>,
    pub ready: Seq<Completion>,
    pub delivered: nat,
}

/// The pool after the completion `done` was queued.
pub open spec fn after_completion(v: PoolView, done: Completion) -> PoolView {
    PoolView {
        states: v.states.update(done.id as int, Execution::Finished),
        ready: v.ready.push(done),
        delivered: v.delivered,
    }
}

/// The pool after one drain.
pub open spec fn after_drain(v: PoolView) -> PoolView {
    if v.ready.len() == 0 {
        v
    } else {
        PoolView { states: v.states, ready: v.ready.drop_first(), delivered: v.delivered + 1 }
    }
}

/// What one drain yields.
pub open spec fn yielded(v: PoolView) -> Option<Completion> {
    if v.ready.len() == 0 {
        None
    } else {
        Some(v.ready[0])
    }
}

/// What draining yields, one after the other, until it yields nothing.
pub open spec fn drain_sequence(v: PoolView) -> Seq<Completion>
    decreases v.ready.len(),
{
    if v.ready.len() == 0 {
        Seq::empty()
    } else {
        seq![v.ready[0]] + drain_sequence(after_drain(v))
    }
}

proof fn lemma_unfinished_all(states: Seq<Execution>)
    requires
        forall|k: int| 0 <= k < states.len() ==> states[k] != Execution::Finished,
    ensures
        unfinished(states) == states.len(),
    decreases states.len(),
{
    if states.len() > 0 {
        lemma_unfinished_all(states.drop_last());
    }
}

proof fn lemma_unfinished_update(states: Seq<Execution>, id: int, next: Execution)
    requires
        0 <= id < states.len(),
    ensures
        unfinished(states.update(id, next)) + (if states[id] == Execution::Finished {
            0nat
        } else {
            1nat
        }) == unfinished(states) + (if next == Execution::Finished {
            0nat
        } else {
            1nat
        }),
    decreases states.len(),
{
    let updated = states.update(id, next);
    if id == states.len() - 1 {
        assert(updated.drop_last() =~= states.drop_last());
    } else {
        lemma_unfinished_update(states.drop_last(), id, next);
        assert(updated.drop_last() =~= states.drop_last().update(id, next));
    }
}

/// Draining yields the queued completions in the order in which they were
/// queued, and nothing else.
pub proof fn lemma_drained_in_completion_order(v: PoolView)
    ensures
        drain_sequence(v) == v.ready,
    decreases v.ready.len(),
{
    if v.ready.len() > 0 {
        lemma_drained_in_completion_order(after_drain(v));
        assert(seq![v.ready[0]] + v.ready.drop_first() =~= v.ready);
    }
}

/// Of two operations, the one that completes first is drained first,
/// whatever their places in the batch.
pub proof fn lemma_earlier_completion_drained_first(v: PoolView, first: Completion, second: Completion)
    ensures
        drain_sequence(after_completion(after_completion(v, first), second)) == drain_sequence(v)
            + seq![first, second],
{
    let w = after_completion(after_completion(v, first), second);
    lemma_drained_in_completion_order(v);
    lemma_drained_in_completion_order(w);
    assert(w.ready =~= v.ready + seq![first, second]);
}

/// A transfer whose reference handle cannot be fetched finishes with an error
/// of its own. Every other execution stands as it stood, and goes on as it
/// would have gone on.
pub proof fn lemma_fault_isolation(
    ops: Seq<Operation>,
    states: Seq<Execution>,
    id: int,
    cause: LedgerError,
    request: Request,
)
    requires
        ops.len() == states.len(),
        0 <= id < ops.len(),
        ops[id] is Transfer,
        states[id] == Execution::AwaitingHandle,
        requests(&ops[id], states[id], Response::Handle(Err(cause)), request),
    ensures
        request == Request::Finish(Err(OperationError::HandleUnavailable(cause))),
        next_state(&ops[id], states[id], Response::Handle(Err(cause))) == Execution::Finished,
        forall|j: int|
            0 <= j < states.len() && j != id ==> (#[trigger] states.update(
                id,
                Execution::Finished,
            )[j]) == states[j],
        unfinished(states.update(id, Execution::Finished)) + 1 == unfinished(states),
{
    lemma_unfinished_update(states, id, Execution::Finished);
}

/// A batch of operations in flight. Completions are handed out in the order in
/// which the operations finish.
pub struct DispatchPool {
    ops: Vec<Operation>,
    states: Vec<Execution>,
    remaining: usize,
    ready: VecDeque<Completion>,
    delivered: usize,
}

impl View for DispatchPool {
    type V = PoolView;

    closed spec fn view(&self) -> PoolView {
        PoolView { states: self.states@, ready: self.ready@, delivered: self.delivered as nat }
    }
}

impl DispatchPool {
    /// The operations of the batch, in submission order.
    pub closed spec fn batch(&self) -> Seq<Operation> {
        self.ops@
    }

    /// Every operation has one execution, and each is in flight, waits to be
    /// drained or was delivered.
    pub closed spec fn wf(&self) -> bool {
        &&& self.states@.len() == self.ops@.len()
        &&& self.remaining == unfinished(self.states@)
        &&& self.remaining + self.ready@.len() + self.delivered == self.ops@.len()
    }

    /// No operation is lost or counted twice: those in flight, those that wait
    /// to be drained and those delivered are together the whole batch. Once
    /// nothing is in flight and nothing waits, as many results were
    /// delivered as the batch has operations.
    pub proof fn lemma_count_preserved(&self)
        requires
            self.wf(),
        ensures
            self@.states.len() == self.batch().len(),
            unfinished(self@.states) + self@.ready.len() + self@.delivered == self.batch().len(),
            unfinished(self@.states) == 0 && self@.ready.len() == 0 ==> self@.delivered
                == self.batch().len(),
    {
    }

    /// Takes a batch and puts every operation of it in flight at once.
    pub fn new(batch: Vec<Operation>) -> (pool: DispatchPool)
        ensures
            pool.wf(),
            pool.batch() == batch@,
            pool@.states.len() == batch@.len(),
            forall|k: int| 0 <= k < batch@.len() ==> pool@.states[k] == Execution::Ready,
            pool@.ready.len() == 0,
            pool@.delivered == 0,
    {
        let n: usize = batch.len();
        let mut states: Vec<Execution> = Vec::new();
        let mut i: usize = 0;
        while i < n
            invariant
                i <= n,
                states@.len() == i,
                forall|k: int| 0 <= k < i ==> states@[k] == Execution::Ready,
            decreases n - i,
        {
            states.push(Execution::Ready);
            i += 1;
        }
        proof {
            lemma_unfinished_all(states@);
        }
        DispatchPool { ops: batch, states, remaining: n, ready: VecDeque::new(), delivered: 0 }
    }

    /// Hands the answer `event` to the execution of operation `id`. Gives the
    /// request to make next for that operation, or `None` when the operation
    /// has finished: its completion, result or error, is then queued behind
    /// those queued before. No other operation is touched. An answer for an
    /// operation that is not in the batch, or that the operation does not wait
    /// for, is refused and changes nothing.
    pub fn respond(&mut self, id: usize, event: Response) -> (request: Option<Request>)
        requires
            old(self).wf(),
        ensures
            final(self).wf(),
            final(self).batch() == old(self).batch(),
            final(self)@.delivered == old(self)@.delivered,
            id >= old(self).batch().len() ==> final(self)@ == old(self)@ && request == Some(
                Request::Refuse,
            ),
            id < old(self).batch().len() ==> final(self)@.states == old(self)@.states.update(
                id as int,
                next_state(&old(self).batch()[id as int], old(self)@.states[id as int], event),
            ),
            id < old(self).batch().len() ==> match request {
                Some(next) => {
                    &&& !(next is Finish)
                    &&& requests(
                        &old(self).batch()[id as int],
                        old(self)@.states[id as int],
                        event,
                        next,
                    )
                    &&& final(self)@.ready == old(self)@.ready
                },
                None => {
                    &&& final(self)@.ready.len() == old(self)@.ready.len() + 1
                    &&& final(self)@.ready.last().id == id
                    &&& final(self)@ == after_completion(old(self)@, final(self)@.ready.last())
                    &&& requests(
                        &old(self).batch()[id as int],
                        old(self)@.states[id as int],
                        event,
                        Request::Finish(final(self)@.ready.last().outcome),
                    )
                    &&& old(self)@.states[id as int] != Execution::Finished
                    &&& final(self)@.states[id as int] == Execution::Finished
                },
            },
    {
        if id >= self.states.len() {
            return Some(Request::Refuse);
        }
        let state = self.states[id];
        let (next, request) = step(&self.ops[id], state, event);
        proof {
            lemma_unfinished_update(self.states@, id as int, next);
        }
        self.states.set(id, next);
        match request {
            Request::Finish(outcome) => {
                self.remaining = self.remaining - 1;
                self.ready.push_back(Completion { id, outcome });
                assert(self@ =~= after_completion(old(self)@, self.ready@.last()));
                None
            },
            other => Some(other),
        }
    }

    /// Yields the oldest completion that waits, or nothing where none waits:
    /// always so once every operation was delivered.
    pub fn drain(&mut self) -> (result: Option<Completion>)
        requires
            old(self).wf(),
        ensures
            final(self).wf(),
            final(self).batch() == old(self).batch(),
            final(self)@ == after_drain(old(self)@),
            result == yielded(old(self)@),
    {
        let total: usize = self.ops.len();
        let front = self.ready.pop_front();
        match front {
            Some(done) => {
                assert(self.delivered < total);
                self.delivered = self.delivered + 1;
                assert(self.ready@ =~= old(self).ready@.drop_first());
                Some(done)
            },
            None => None,
        }
    }

    /// The number of operations in the batch.
    pub fn total(&self) -> (n: usize)
        requires
            self.wf(),
        ensures
            n == self.batch().len(),
    {
        self.ops.len()
    }

    /// The number of operations still in flight.
    pub fn in_flight(&self) -> (n: usize)
        requires
            self.wf(),
        ensures
            n == unfinished(self@.states),
    {
        self.remaining
    }

    /// The number of completions drained so far.
    pub fn delivered(&self) -> (n: usize)
        requires
            self.wf(),
        ensures
            n == self@.delivered,
    {
        self.delivered
    }

    /// Whether every operation has finished and every completion was drained.
    pub fn is_terminal(&self) -> (done: bool)
        requires
            self.wf(),
        ensures
            done == (self@.delivered == self.batch().len()),
            done ==> yielded(self@) is None,
    {
        self.delivered == self.ops.len()
    }
}

} // verus!
