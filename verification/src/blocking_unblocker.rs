//! The blocking bridge: run a one-shot blocking computation and expose its
//! result as a single-resolution future.

use vstd::prelude::*;

verus! {

/// A place where one-shot blocking work can be run: hand it a computation,
/// get back an asynchronous handle that resolves to the computation's
/// result. No ordering is promised between independent submissions.
///
/// The computation and its result must be transferable across execution
/// contexts, since a concrete unblocker may run the work anywhere.
pub trait Unblocker<F, T> where F: FnOnce() -> T + Send + 'static, T: Send + 'static {
    /// The asynchronous handle this unblocker returns.
    type UnblockFuture;

    /// What it means for a handle of this unblocker to be charged with the
    /// computation `f`: the handle owes its driver exactly `f`'s result.
    spec fn charged(&self, fut: &Self::UnblockFuture, f: F) -> bool;

    /// Submit the computation; the call itself never blocks, it only hands
    /// back the charged handle.
    fn unblock(&self, f: F) -> (fut: Self::UnblockFuture)
        ensures
            self.charged(&fut, f),
    ;
}

/// The reference unblocker: it spawns nothing and keeps no state. The
/// computation simply runs inline inside the first progress attempt of the
/// future it hands back, so any real concurrency is up to whichever host
/// context drives that future.
#[derive(Clone)]
pub struct BlockingUnblocker {}

impl BlockingUnblocker {
    /// Wrap the computation in a pending [`BlockingFuture`] and return at
    /// once; nothing runs until the future is progressed.
    pub fn unblock<F, T>(&self, f: F) -> (fut: BlockingFuture<F>) where
        F: FnOnce() -> T + Send + 'static,
        T: Send + 'static,

        ensures
            fut.pending(),
            fut.computation() == f,
    {
        BlockingFuture::new(f)
    }
}

impl<F, T> Unblocker<F, T> for BlockingUnblocker where
    F: FnOnce() -> T + Send + 'static,
    T: Send + 'static,
{
    type UnblockFuture = BlockingFuture<F>;

    open spec fn charged(&self, fut: &BlockingFuture<F>, f: F) -> bool {
        fut.pending() && fut.computation() == f
    }

    fn unblock(&self, f: F) -> (fut: BlockingFuture<F>) {
        BlockingUnblocker::unblock(self, f)
    }
}

/// Hand out the reference unblocker.
pub fn blocking_unblocker() -> BlockingUnblocker {
    BlockingUnblocker {}
}

/// Exactly-once delivery, stated over the bridge's own futures: a future the
/// reference unblocker has charged with a runnable computation `f` meets the
/// precondition of [`BlockingFuture::poll`], and every output `poll` may then
/// deliver, in that first and only progress attempt, is a result of `f`.
pub proof fn lemma_charged_future_delivers<F, T>(
    u: BlockingUnblocker,
    fut: BlockingFuture<F>,
    f: F,
) where F: FnOnce() -> T + Send + 'static, T: Send + 'static
    requires
        u.charged(&fut, f),
        call_requires(f, ()),
    ensures
        fut.pending(),
        call_requires(fut.computation(), ()),
        forall|output: T| call_ensures(fut.computation(), (), output) ==> call_ensures(f, (), output),
{
}

/// The single-resolution future produced by the blocking bridge.
///
/// It starts out pending, holding the one-shot computation; the first (and
/// only permitted) progress attempt takes the computation out, runs it to
/// completion, and resolves with its result.
pub struct BlockingFuture<F> {
    computation: Option<F>,
}

impl<F> BlockingFuture<F> {
    /// True while the computation has not run yet.
    pub closed spec fn pending(&self) -> bool {
        self.computation is Some
    }

    /// The computation this future still holds, while it is pending.
    pub closed spec fn computation(&self) -> F {
        self.computation->Some_0
    }

    /// Whether the computation is still present, for drivers that cannot
    /// track it otherwise.
    pub fn is_pending(&self) -> (r: bool)
        ensures
            r == self.pending(),
    {
        self.computation.is_some()
    }

    /// A fresh future is pending and holds exactly the given computation.
    pub fn new(computation: F) -> (fut: Self)
        ensures
            fut.pending(),
            fut.computation() == computation,
    {
        BlockingFuture { computation: Some(computation) }
    }

    /// One progress attempt. It must find the computation present; it takes
    /// the computation out, runs it synchronously to completion, and resolves
    /// with its result in the same attempt. Progressing a future that has
    /// already resolved is out of contract: the single-consumption invariant
    /// makes it a logic error, not a runtime contingency.
    pub fn poll<T>(&mut self) -> (output: T) where F: FnOnce() -> T
        requires
            old(self).pending(),
            call_requires(old(self).computation(), ()),
        ensures
            !final(self).pending(),
            call_ensures(old(self).computation(), (), output),
    {
        let computation = self.computation.take();
        match computation {
            Some(f) => f(),
            None => vstd::pervasive::unreached(),
        }
    }
}

} // verus!
