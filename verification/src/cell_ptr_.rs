use crate::atomic_cell_::{TrAtomicCell, TrAtomicData};
use crate::fetch;
use crate::fetch::{takes_any, update_outcome};
use crate::mem_order_::MemOrder;
use crate::ptr_addr_::PtrAddr;
use core::ptr::with_exposed_provenance_mut;
use core::sync::atomic::AtomicPtr;
use core::sync::atomic::Ordering;
use vstd::prelude::*;

verus! {

/// The native pointer cell. Its contents are hidden; the functions below
/// reach it and speak of addresses only.
#[verifier::external_type_specification]
#[verifier::external_body]
#[verifier::reject_recursive_types(T)]
pub struct ExAtomicPtr<T>(AtomicPtr<T>);

/// `AtomicPtr::new`, for the pointer that the address stands for. Nothing
/// is claimed of the cell.
#[verifier::external_body]
fn ptr_new<T>(addr: usize) -> AtomicPtr<T> {
    AtomicPtr::new(with_exposed_provenance_mut(addr))
}

/// `AtomicPtr::into_inner` hands out the pointer of a cell that nobody
/// else can reach any more, here as its address. Nothing is claimed of it.
#[verifier::external_body]
fn ptr_into_inner<T>(cell: AtomicPtr<T>) -> usize {
    cell.into_inner().expose_provenance()
}

/// `AtomicPtr::load`, which answers the pointer that the cell holds, here
/// as its address. Nothing is claimed of it; the call does not accept an
/// order that releases.
#[verifier::external_body]
fn ptr_load<T>(cell: &AtomicPtr<T>, order: Ordering) -> usize
    requires
        order != Ordering::Release,
        order != Ordering::AcqRel,
{
    cell.load(order).expose_provenance()
}

/// `AtomicPtr::store`, for the pointer that the address stands for. The
/// call does not accept an order that acquires.
#[verifier::external_body]
fn ptr_store<T>(cell: &AtomicPtr<T>, addr: usize, order: Ordering)
    requires
        order != Ordering::Acquire,
        order != Ordering::AcqRel,
{
    cell.store(with_exposed_provenance_mut(addr), order)
}

/// `AtomicPtr::swap`, which answers the pointer that was replaced, here as
/// its address. Nothing is claimed of it.
#[verifier::external_body]
fn ptr_swap<T>(cell: &AtomicPtr<T>, addr: usize, order: Ordering) -> usize {
    cell.swap(with_exposed_provenance_mut(addr), order).expose_provenance()
}

/// `AtomicPtr::compare_exchange`, with pointers given and answered as
/// their addresses. It stores `desired` exactly if the cell holds `current`,
/// and answers what the cell held: an answer of `Ok` carries `current`, and
/// one of `Err` another address, since this exchange does not fail when the
/// comparison succeeds. Nothing else is claimed of the answer. The call does
/// not accept a `failure` order that releases.
#[verifier::external_body]
fn ptr_compare_exchange<T>(
    cell: &AtomicPtr<T>,
    current: usize,
    desired: usize,
    success: Ordering,
    failure: Ordering,
) -> (r: Result<usize, usize>)
    requires
        failure != Ordering::Release,
        failure != Ordering::AcqRel,
    ensures
        r matches Ok(seen) ==> seen == current,
        r matches Err(seen) ==> seen != current,
{
    let current = with_exposed_provenance_mut(current);
    let desired = with_exposed_provenance_mut(desired);
    match cell.compare_exchange(current, desired, success, failure) {
        Ok(p) => Ok(p.expose_provenance()),
        Err(p) => Err(p.expose_provenance()),
    }
}

/// `AtomicPtr::compare_exchange_weak`, with pointers given and answered as
/// their addresses. An answer of `Ok` carries `current`; nothing else is
/// claimed of the answer. The call does not accept a `failure` order that
/// releases.
#[verifier::external_body]
fn ptr_compare_exchange_weak<T>(
    cell: &AtomicPtr<T>,
    current: usize,
    desired: usize,
    success: Ordering,
    failure: Ordering,
) -> (r: Result<usize, usize>)
    requires
        failure != Ordering::Release,
        failure != Ordering::AcqRel,
    ensures
        r matches Ok(seen) ==> seen == current,
{
    let current = with_exposed_provenance_mut(current);
    let desired = with_exposed_provenance_mut(desired);
    match cell.compare_exchange_weak(current, desired, success, failure) {
        Ok(p) => Ok(p.expose_provenance()),
        Err(p) => Err(p.expose_provenance()),
    }
}

/// `AtomicPtr::fetch_update` reads the cell with `fetch_order` and offers
/// each pointer that it sees to `f`, as its address, until `f` declines one
/// or the pointer that `f` gave for one has been stored in its place with
/// `set_order`. It answers `Ok` with the address that was replaced, or `Err`
/// with the address that `f` declined. It does not accept a `fetch_order`
/// that releases.
#[verifier::external_body]
fn ptr_fetch_update<T, F: FnMut(PtrAddr<T>) -> Option<PtrAddr<T>>>(
    cell: &AtomicPtr<T>,
    set_order: Ordering,
    fetch_order: Ordering,
    f: F,
) -> (r: Result<PtrAddr<T>, PtrAddr<T>>)
    requires
        fetch_order != Ordering::Release,
        fetch_order != Ordering::AcqRel,
        takes_any(f),
    ensures
        update_outcome(f, r),
{
    let mut f = f;
    let r = cell.fetch_update(set_order, fetch_order, |p| {
        f(PtrAddr::new(p.expose_provenance())).map(|n| with_exposed_provenance_mut(n.addr()))
    });
    match r {
        Ok(p) => Ok(PtrAddr::new(p.expose_provenance())),
        Err(p) => Err(PtrAddr::new(p.expose_provenance())),
    }
}

/// An answer to an exchange of pointers, in addresses.
pub open spec fn addresses<T>(r: Result<PtrAddr<T>, PtrAddr<T>>) -> Result<usize, usize> {
    match r {
        Ok(seen) => Ok(seen@),
        Err(seen) => Err(seen@),
    }
}

/// Whether `r` is what `AtomicPtr::compare_exchange` may answer for
/// `cell`, with pointers given and answered as their addresses.
pub closed spec fn ptr_exchange_answers<T>(
    cell: &AtomicPtr<T>,
    current: usize,
    desired: usize,
    success: MemOrder,
    failure: MemOrder,
    r: Result<usize, usize>,
) -> bool {
    call_ensures(
        ptr_compare_exchange::<T>,
        (cell, current, desired, success.native(), failure.native()),
        r,
    )
}

/// Whether `r` is what `AtomicPtr::compare_exchange_weak` may answer for
/// `cell`, with pointers given and answered as their addresses.
pub closed spec fn ptr_weak_exchange_answers<T>(
    cell: &AtomicPtr<T>,
    current: usize,
    desired: usize,
    success: MemOrder,
    failure: MemOrder,
    r: Result<usize, usize>,
) -> bool {
    call_ensures(
        ptr_compare_exchange_weak::<T>,
        (cell, current, desired, success.native(), failure.native()),
        r,
    )
}

impl<T> TrAtomicData for PtrAddr<T> {
    type AtomicCell = AtomicPtr<T>;
}

/// Every request goes to the method of `AtomicPtr` of the same name, with
/// the native ordering of the same name and with the pointers that the
/// addresses stand for, and is answered as that method answers. An exchange
/// that takes place answers `current`, and a strong one that does not answers
/// another address.
impl<T> TrAtomicCell for AtomicPtr<T> {
    type Value = PtrAddr<T>;

    closed spec fn new_answers(val: PtrAddr<T>, cell: Self) -> bool {
        call_ensures(ptr_new::<T>, (val@,), cell)
    }

    closed spec fn into_inner_answers(self, val: PtrAddr<T>) -> bool {
        call_ensures(ptr_into_inner::<T>, (self,), val@)
    }

    closed spec fn load_answers(&self, order: MemOrder, val: PtrAddr<T>) -> bool {
        call_ensures(ptr_load::<T>, (self, order.native()), val@)
    }

    closed spec fn store_answers(&self, val: PtrAddr<T>, order: MemOrder) -> bool {
        call_ensures(ptr_store::<T>, (self, val@, order.native()), ())
    }

    closed spec fn swap_answers(&self, val: PtrAddr<T>, order: MemOrder, old: PtrAddr<T>) -> bool {
        call_ensures(ptr_swap::<T>, (self, val@, order.native()), old@)
    }

    open spec fn compare_exchange_answers(
        &self,
        current: PtrAddr<T>,
        desired: PtrAddr<T>,
        success: MemOrder,
        failure: MemOrder,
        r: Result<PtrAddr<T>, PtrAddr<T>>,
    ) -> bool {
        &&& ptr_exchange_answers(self, current@, desired@, success, failure, addresses(r))
        &&& r matches Ok(seen) ==> seen@ == current@
        &&& r matches Err(seen) ==> seen@ != current@
    }

    open spec fn compare_exchange_weak_answers(
        &self,
        current: PtrAddr<T>,
        desired: PtrAddr<T>,
        success: MemOrder,
        failure: MemOrder,
        r: Result<PtrAddr<T>, PtrAddr<T>>,
    ) -> bool {
        &&& ptr_weak_exchange_answers(self, current@, desired@, success, failure, addresses(r))
        &&& r matches Ok(seen) ==> seen@ == current@
    }

    #[inline(always)]
    fn new(val: PtrAddr<T>) -> Self {
        ptr_new(val.addr())
    }

    #[inline(always)]
    fn into_inner(self) -> PtrAddr<T> {
        PtrAddr::new(ptr_into_inner(self))
    }

    #[inline(always)]
    fn load(&self, order: MemOrder) -> PtrAddr<T> {
        PtrAddr::new(ptr_load(self, order.to_std()))
    }

    #[inline(always)]
    fn store(&self, val: PtrAddr<T>, order: MemOrder) {
        ptr_store(self, val.addr(), order.to_std())
    }

    #[inline(always)]
    fn swap(&self, val: PtrAddr<T>, order: MemOrder) -> PtrAddr<T> {
        PtrAddr::new(ptr_swap(self, val.addr(), order.to_std()))
    }

    #[inline(always)]
    fn compare_exchange(
        &self,
        current: PtrAddr<T>,
        desired: PtrAddr<T>,
        success: MemOrder,
        failure: MemOrder,
    ) -> Result<PtrAddr<T>, PtrAddr<T>> {
        let raw = ptr_compare_exchange(
            self,
            current.addr(),
            desired.addr(),
            success.to_std(),
            failure.to_std(),
        );
        match raw {
            Ok(a) => Ok(PtrAddr::new(a)),
            Err(a) => Err(PtrAddr::new(a)),
        }
    }

    #[inline(always)]
    fn compare_exchange_weak(
        &self,
        current: PtrAddr<T>,
        desired: PtrAddr<T>,
        success: MemOrder,
        failure: MemOrder,
    ) -> Result<PtrAddr<T>, PtrAddr<T>> {
        let raw = ptr_compare_exchange_weak(
            self,
            current.addr(),
            desired.addr(),
            success.to_std(),
            failure.to_std(),
        );
        match raw {
            Ok(a) => Ok(PtrAddr::new(a)),
            Err(a) => Err(PtrAddr::new(a)),
        }
    }
}

impl<T> fetch::Update for AtomicPtr<T> {
    type Value = PtrAddr<T>;

    #[inline(always)]
    fn fetch_update<F>(&self, fetch_order: MemOrder, set_order: MemOrder, f: F) -> (r: Result<
        PtrAddr<T>,
        PtrAddr<T>,
    >) where F: FnMut(PtrAddr<T>) -> Option<PtrAddr<T>> {
        ptr_fetch_update(self, set_order.to_std(), fetch_order.to_std(), f)
    }
}

} // verus!
