//! The capability-to-wrapper mapping: a synchronous type declares which
//! asynchronous wrapper type stands for it, in an owning and a borrowing form.

use vstd::prelude::*;

verus! {

/// An asynchronous wrapper around the synchronous capability `S`.
///
/// A wrapper is constructible from one `S` and holds that capability for its
/// whole lifetime; `sync()` is the capability it was built from.
pub trait AsyncWrapper<S>: Sized {
    /// The capability this wrapper was constructed around.
    spec fn sync(&self) -> S;

    /// Construction is total: every capability yields a wrapper, and the
    /// wrapper holds exactly the capability it was given.
    fn new(sync: S) -> (wrapper: Self)
        ensures
            wrapper.sync() == sync,
    ;
}

/// A synchronous type that declares its asynchronous wrapper type.
pub trait Asyncify: Sized {
    /// The wrapper that takes the capability over entirely.
    type OwnedWrapper: AsyncWrapper<Self>;

    /// The wrapper that holds an exclusive borrow of the capability for the
    /// scope `'a`.
    type BorrowedWrapper<'a>: AsyncWrapper<&'a mut Self> where Self: 'a;

    /// Consume the capability and return its owning wrapper. The wrapper is
    /// the sole owner of the capability from here on.
    fn into_async(self) -> (wrapper: Self::OwnedWrapper)
        ensures
            wrapper.sync() == self,
    {
        Self::OwnedWrapper::new(self)
    }

    /// Borrow the capability exclusively and return its borrowing wrapper.
    /// While the wrapper is alive no other access path to the capability
    /// exists; the capability becomes accessible again once the wrapper is
    /// dropped, holding whatever value the wrapper left behind.
    fn as_async<'a>(&'a mut self) -> (wrapper: Self::BorrowedWrapper<'a>)
        ensures
            *wrapper.sync() == *old(self),
            *final(self) == *final(wrapper.sync()),
    {
        Self::BorrowedWrapper::new(self)
    }
}

/// An asynchronous wrapper that, besides the synchronous capability `S`,
/// holds an unblocker `U` to which it delegates unavoidably blocking calls.
pub trait UnblockingAsyncWrapper<U, S>: Sized {
    /// The unblocker this wrapper dispatches blocking work to.
    spec fn unblocker(&self) -> U;

    /// The capability this wrapper was constructed around.
    spec fn sync(&self) -> S;

    /// Construction is total and requires both the unblocker and the
    /// capability; the wrapper holds exactly what it was given.
    fn new(unblocker: U, sync: S) -> (wrapper: Self)
        ensures
            wrapper.unblocker() == unblocker,
            wrapper.sync() == sync,
    ;
}

/// A synchronous type whose asynchronous wrapper must delegate blocking
/// calls to an unblocker `U`: the wrapper cannot exist without one.
pub trait UnblockingAsyncify<U>: Sized {
    /// The wrapper that takes the capability over entirely.
    type OwnedWrapper: UnblockingAsyncWrapper<U, Self>;

    /// The wrapper that holds an exclusive borrow of the capability for the
    /// scope `'a`.
    type BorrowedWrapper<'a>: UnblockingAsyncWrapper<U, &'a mut Self> where Self: 'a, U: 'a;

    /// Consume the capability and return its owning wrapper, built around
    /// the given unblocker.
    fn unblock_into_async(self, unblocker: U) -> (wrapper: Self::OwnedWrapper)
        ensures
            wrapper.unblocker() == unblocker,
            wrapper.sync() == self,
    {
        Self::OwnedWrapper::new(unblocker, self)
    }

    /// Borrow the capability exclusively and return its borrowing wrapper,
    /// built around the given unblocker. The capability becomes accessible
    /// again once the wrapper is dropped, holding whatever value the wrapper
    /// left behind.
    fn unblock_as_async<'a>(&'a mut self, unblocker: U) -> (wrapper: Self::BorrowedWrapper<'a>)
        ensures
            wrapper.unblocker() == unblocker,
            *wrapper.sync() == *old(self),
            *final(self) == *final(wrapper.sync()),
    {
        Self::BorrowedWrapper::new(unblocker, self)
    }
}

} // verus!
