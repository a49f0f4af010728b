use asyncify::async_wrapper::{AsyncWrapper, Asyncify, UnblockingAsyncWrapper, UnblockingAsyncify};
use asyncify::blocking_unblocker::{blocking_unblocker, BlockingUnblocker};

struct Port {
    addr: u16,
}

struct PortWrapper<S> {
    inner: S,
}

impl<S> AsyncWrapper<S> for PortWrapper<S> {
    // Ghost view; never called at run time.
    fn sync(&self) -> S {
        panic!()
    }

    fn new(sync: S) -> Self {
        PortWrapper { inner: sync }
    }
}

impl Asyncify for Port {
    type OwnedWrapper = PortWrapper<Port>;
    type BorrowedWrapper<'a> = PortWrapper<&'a mut Port>;
}

struct UnblockingPortWrapper<U, S> {
    unblocker: U,
    inner: S,
}

impl<U, S> UnblockingAsyncWrapper<U, S> for UnblockingPortWrapper<U, S> {
    // Ghost views; never called at run time.
    fn unblocker(&self) -> U {
        panic!()
    }

    fn sync(&self) -> S {
        panic!()
    }

    fn new(unblocker: U, sync: S) -> Self {
        UnblockingPortWrapper { unblocker, inner: sync }
    }
}

impl UnblockingAsyncify<BlockingUnblocker> for Port {
    type OwnedWrapper = UnblockingPortWrapper<BlockingUnblocker, Port>;
    type BorrowedWrapper<'a> = UnblockingPortWrapper<BlockingUnblocker, &'a mut Port>;
}

#[test]
fn owning_wrapper_takes_the_capability_over() {
    let port = Port { addr: 80 };
    let wrapper = port.into_async();
    assert_eq!(wrapper.inner.addr, 80);
}

#[test]
fn borrowing_wrapper_hands_the_capability_back() {
    let mut port = Port { addr: 80 };
    {
        let wrapper = port.as_async();
        wrapper.inner.addr = 443;
    }
    assert_eq!(port.addr, 443);
}

#[test]
fn unblocking_wrapper_holds_unblocker_and_capability() {
    let port = Port { addr: 80 };
    let wrapper = port.unblock_into_async(blocking_unblocker());
    assert_eq!(wrapper.inner.addr, 80);
    let mut fut = wrapper.unblocker.unblock(|| 1u8);
    assert_eq!(fut.poll(), 1u8);
}

#[test]
fn unblocking_borrowing_wrapper_hands_the_capability_back() {
    let mut port = Port { addr: 80 };
    {
        let wrapper = port.unblock_as_async(blocking_unblocker());
        wrapper.inner.addr = 8080;
    }
    assert_eq!(port.addr, 8080);
}
