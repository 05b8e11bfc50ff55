//! The chain of interceptors that each message passes through before it
//! reaches a handler.
//!
//! Interceptors do their work outside this library (they may wait on I/O);
//! what the chain decides is which interceptor runs next and when the
//! chain is done: interceptors run in the order they were pushed, and the
//! first one that fails ends the chain with its error.

use vstd::prelude::*;

verus! {

/// An ordered list of interceptors.
pub struct InterceptorChain<I> {
    interceptors: Vec<I>,
}

/// What applying a chain to a message does next.
pub enum ChainStep<E> {
    /// Run the interceptor at this position.
    Intercept(usize),
    /// The chain is done, with this result.
    Done(Result<(), E>),
}

/// Where a chain of `len` interceptors starts.
pub open spec fn chain_start<E>(len: nat) -> ChainStep<E> {
    if len == 0 {
        ChainStep::Done(Ok(()))
    } else {
        ChainStep::Intercept(0)
    }
}

/// Where a chain of `len` interceptors goes once the interceptor at `index`
/// has reported `outcome`.
pub open spec fn chain_after<E>(len: nat, index: int, outcome: Result<(), E>) -> ChainStep<E> {
    match outcome {
        Err(e) => ChainStep::Done(Err(e)),
        Ok(()) => if index + 1 < len {
            ChainStep::Intercept((index + 1) as usize)
        } else {
            ChainStep::Done(Ok(()))
        },
    }
}

/// The positions a chain of `len` interceptors visits from `index` on, and the
/// result it ends with, where `outcomes[i]` is what the interceptor at `i`
/// reports.
pub open spec fn chain_drive<E>(len: nat, index: int, outcomes: Seq<Result<(), E>>) -> (Seq<int>, Result<(), E>)
    decreases len - index,
{
    if 0 <= index < len {
        match chain_after(len, index, outcomes[index]) {
            ChainStep::Intercept(next) => if index < next && next <= len {
                let rest = chain_drive(len, next as int, outcomes);
                (seq![index] + rest.0, rest.1)
            } else {
                (seq![index], Ok(()))
            },
            ChainStep::Done(result) => (seq![index], result),
        }
    } else {
        (Seq::empty(), Ok(()))
    }
}

/// The positions that applying a chain of `len` interceptors visits, and the
/// result it ends with, where `outcomes[i]` is what the interceptor at `i`
/// reports.
pub open spec fn chain_run<E>(len: nat, outcomes: Seq<Result<(), E>>) -> (Seq<int>, Result<(), E>) {
    match chain_start::<E>(len) {
        ChainStep::Intercept(first) => chain_drive(len, first as int, outcomes),
        ChainStep::Done(result) => (Seq::empty(), result),
    }
}

proof fn lemma_chain_drive<E>(len: nat, index: int, outcomes: Seq<Result<(), E>>)
    requires
        0 <= index < len,
        len <= usize::MAX,
        outcomes.len() >= len,
    ensures
        ({
            let (trace, result) = chain_drive(len, index, outcomes);
            &&& trace.len() >= 1 && index + trace.len() <= len
            &&& forall|i: int| 0 <= i < trace.len() ==> trace[i] == index + i
            &&& forall|i: int| index <= i < index + trace.len() - 1 ==> outcomes[i] is Ok
            &&& (result is Ok <==> forall|i: int| index <= i < len ==> outcomes[i] is Ok)
            &&& result is Ok ==> index + trace.len() == len
            &&& result is Err ==> result == outcomes[index + trace.len() - 1]
        }),
    decreases len - index,
{
    if outcomes[index] is Ok && index + 1 < len {
        lemma_chain_drive(len, index + 1, outcomes);
        let rest = chain_drive(len, index + 1, outcomes);
        let (trace, result) = chain_drive(len, index, outcomes);
        assert(trace == seq![index] + rest.0);
        assert forall|i: int| 0 <= i < trace.len() implies trace[i] == index + i by {
            if i > 0 {
                assert(trace[i] == rest.0[i - 1]);
            }
        }
    }
}

/// Applying a chain runs its interceptors in the order they were pushed,
/// each at most once, and stops at the first one that fails: the chain
/// succeeds exactly when every interceptor succeeds, then having run them
/// all, and otherwise ends with the error of the first that failed.
pub proof fn lemma_chain_runs_in_order<E>(len: nat, outcomes: Seq<Result<(), E>>)
    requires
        len <= usize::MAX,
        outcomes.len() >= len,
    ensures
        ({
            let (trace, result) = chain_run(len, outcomes);
            &&& trace.len() <= len
            &&& forall|i: int| 0 <= i < trace.len() ==> trace[i] == i
            &&& forall|i: int| 0 <= i < trace.len() - 1 ==> outcomes[i] is Ok
            &&& (result is Ok <==> forall|i: int| 0 <= i < len ==> outcomes[i] is Ok)
            &&& result is Ok ==> trace.len() == len
            &&& result is Err ==> trace.len() > 0 && result == outcomes[trace.len() - 1]
        }),
{
    if len > 0 {
        lemma_chain_drive(len, 0, outcomes);
    }
}

/// The view of a chain made by `new` (an empty view) and then one `push` (which
/// appends to the view) of each of `items`, in order.
pub open spec fn pushed_in_order<I>(items: Seq<I>) -> Seq<I>
    decreases items.len(),
{
    if items.len() == 0 {
        Seq::empty()
    } else {
        pushed_in_order(items.drop_last()).push(items.last())
    }
}

/// A chain made by `new` followed by `n` pushes holds exactly the pushed
/// interceptors, in push order, so its `len` is `n`.
pub proof fn lemma_pushes_make_chain<I>(items: Seq<I>)
    ensures
        pushed_in_order(items) == items,
        pushed_in_order(items).len() == items.len(),
    decreases items.len(),
{
    if items.len() > 0 {
        lemma_pushes_make_chain(items.drop_last());
        assert(items.drop_last().push(items.last()) =~= items);
    }
}

impl<I> View for InterceptorChain<I> {
    type V = Seq<I>;

    closed spec fn view(&self) -> Seq<I> {
        self.interceptors@
    }
}

impl<I> InterceptorChain<I> {
    /// An empty chain.
    pub fn new() -> (r: Self)
        ensures
            r@ == Seq::<I>::empty(),
    {
        InterceptorChain { interceptors: Vec::new() }
    }

    /// Appends an interceptor; it runs after all those pushed before it.
    pub fn push(&mut self, interceptor: I)
        ensures
            final(self)@ == old(self)@.push(interceptor),
    {
        self.interceptors.push(interceptor);
    }

    pub fn is_empty(&self) -> (r: bool)
        ensures
            r == (self@.len() == 0),
    {
        self.interceptors.len() == 0
    }

    pub fn len(&self) -> (r: usize)
        ensures
            r == self@.len(),
    {
        self.interceptors.len()
    }

    /// The interceptor at a position.
    pub fn get(&self, index: usize) -> (r: &I)
        requires
            index < self@.len(),
        ensures
            *r == self@[index as int],
    {
        &self.interceptors[index]
    }

    /// The first step of applying the chain to a message.
    pub fn start<E>(&self) -> (r: ChainStep<E>)
        ensures
            r == chain_start::<E>(self@.len()),
    {
        if self.interceptors.len() == 0 {
            ChainStep::Done(Ok(()))
        } else {
            ChainStep::Intercept(0)
        }
    }

    /// The step after the interceptor at `index` reported `outcome`.
    pub fn advance<E>(&self, index: usize, outcome: Result<(), E>) -> (r: ChainStep<E>)
        requires
            index < self@.len(),
        ensures
            r == chain_after(self@.len(), index as int, outcome),
    {
        let n = self.interceptors.len();
        match outcome {
            Err(e) => ChainStep::Done(Err(e)),
            Ok(()) => if index + 1 < n {
                ChainStep::Intercept(index + 1)
            } else {
                ChainStep::Done(Ok(()))
            },
        }
    }
}

impl<I> Default for InterceptorChain<I> {
    fn default() -> (r: Self)
        ensures
            r@ == Seq::<I>::empty(),
    {
        InterceptorChain::new()
    }
}

} // verus!
