use crate::atomic_cell_::{Bitwise, TrAtomicCell, TrAtomicData};
use crate::fetch;
use crate::fetch::{takes_any, update_outcome};
use crate::mem_order_::MemOrder;
use core::sync::atomic::Ordering;
use core::sync::atomic::AtomicBool;
use vstd::prelude::*;

verus! {

/// `AtomicBool::into_inner` hands out the value of a cell that nobody else
/// can reach any more. Nothing is claimed of that value.
#[verifier::external_body]
fn bool_into_inner(cell: AtomicBool) -> bool {
    cell.into_inner()
}

/// `AtomicBool::fetch_update` reads the cell with `fetch_order` and offers
/// each value that it sees to `f`, until `f` declines one or the value that
/// `f` gave for one has been stored in its place with `set_order`. It
/// answers `Ok` with the value that was replaced, or `Err` with the value
/// that `f` declined. It does not accept a `fetch_order` that releases.
#[verifier::external_body]
fn bool_fetch_update<F: FnMut(bool) -> Option<bool>>(
    cell: &AtomicBool,
    set_order: Ordering,
    fetch_order: Ordering,
    f: F,
) -> (r: Result<bool, bool>)
    requires
        fetch_order != Ordering::Release,
        fetch_order != Ordering::AcqRel,
        takes_any(f),
    ensures
        update_outcome(f, r),
{
    cell.fetch_update(set_order, fetch_order, f)
}

impl TrAtomicData for bool {
    type AtomicCell = AtomicBool;
}

/// Every request goes to the method of `AtomicBool` of the same name, with the
/// native ordering of the same name, and is answered as that method answers.
impl TrAtomicCell for AtomicBool {
    type Value = bool;

    open spec fn new_answers(val: bool, cell: Self) -> bool {
        call_ensures(AtomicBool::new, (val,), cell)
    }

    closed spec fn into_inner_answers(self, val: bool) -> bool {
        call_ensures(bool_into_inner, (self,), val)
    }

    open spec fn load_answers(&self, order: MemOrder, val: bool) -> bool {
        call_ensures(AtomicBool::load, (self, order.native()), val)
    }

    open spec fn store_answers(&self, val: bool, order: MemOrder) -> bool {
        call_ensures(AtomicBool::store, (self, val, order.native()), ())
    }

    open spec fn swap_answers(&self, val: bool, order: MemOrder, old: bool) -> bool {
        call_ensures(AtomicBool::swap, (self, val, order.native()), old)
    }

    open spec fn compare_exchange_answers(
        &self,
        current: bool,
        desired: bool,
        success: MemOrder,
        failure: MemOrder,
        r: Result<bool, bool>,
    ) -> bool {
        call_ensures(
            AtomicBool::compare_exchange,
            (self, current, desired, success.native(), failure.native()),
            r,
        )
    }

    open spec fn compare_exchange_weak_answers(
        &self,
        current: bool,
        desired: bool,
        success: MemOrder,
        failure: MemOrder,
        r: Result<bool, bool>,
    ) -> bool {
        call_ensures(
            AtomicBool::compare_exchange_weak,
            (self, current, desired, success.native(), failure.native()),
            r,
        )
    }

    #[inline(always)]
    fn new(val: bool) -> Self {
        AtomicBool::new(val)
    }

    #[inline(always)]
    fn into_inner(self) -> bool {
        bool_into_inner(self)
    }

    #[inline(always)]
    fn load(&self, order: MemOrder) -> bool {
        AtomicBool::load(self, order.to_std())
    }

    #[inline(always)]
    fn store(&self, val: bool, order: MemOrder) {
        AtomicBool::store(self, val, order.to_std())
    }

    #[inline(always)]
    fn swap(&self, val: bool, order: MemOrder) -> bool {
        AtomicBool::swap(self, val, order.to_std())
    }

    #[inline(always)]
    fn compare_exchange(
        &self,
        current: bool,
        desired: bool,
        success: MemOrder,
        failure: MemOrder,
    ) -> Result<bool, bool> {
        AtomicBool::compare_exchange(self, current, desired, success.to_std(), failure.to_std())
    }

    #[inline(always)]
    fn compare_exchange_weak(
        &self,
        current: bool,
        desired: bool,
        success: MemOrder,
        failure: MemOrder,
    ) -> Result<bool, bool> {
        AtomicBool::compare_exchange_weak(self, current, desired, success.to_std(), failure.to_std())
    }
}

impl fetch::Update for AtomicBool {
    type Value = bool;

    #[inline(always)]
    fn fetch_update<F>(&self, fetch_order: MemOrder, set_order: MemOrder, f: F) -> (r: Result<
        bool,
        bool,
    >) where F: FnMut(bool) -> Option<bool> {
        bool_fetch_update(self, set_order.to_std(), fetch_order.to_std(), f)
    }
}

impl Bitwise for AtomicBool {
}

impl fetch::And for AtomicBool {
    type Value = bool;

    open spec fn fetch_and_answers(&self, val: bool, order: MemOrder, old: bool) -> bool {
        call_ensures(AtomicBool::fetch_and, (self, val, order.native()), old)
    }

    #[inline(always)]
    fn fetch_and(&self, val: bool, order: MemOrder) -> bool {
        AtomicBool::fetch_and(self, val, order.to_std())
    }
}

impl fetch::Nand for AtomicBool {
    type Value = bool;

    open spec fn fetch_nand_answers(&self, val: bool, order: MemOrder, old: bool) -> bool {
        call_ensures(AtomicBool::fetch_nand, (self, val, order.native()), old)
    }

    #[inline(always)]
    fn fetch_nand(&self, val: bool, order: MemOrder) -> bool {
        AtomicBool::fetch_nand(self, val, order.to_std())
    }
}

impl fetch::Or for AtomicBool {
    type Value = bool;

    open spec fn fetch_or_answers(&self, val: bool, order: MemOrder, old: bool) -> bool {
        call_ensures(AtomicBool::fetch_or, (self, val, order.native()), old)
    }

    #[inline(always)]
    fn fetch_or(&self, val: bool, order: MemOrder) -> bool {
        AtomicBool::fetch_or(self, val, order.to_std())
    }
}

impl fetch::Xor for AtomicBool {
    type Value = bool;

    open spec fn fetch_xor_answers(&self, val: bool, order: MemOrder, old: bool) -> bool {
        call_ensures(AtomicBool::fetch_xor, (self, val, order.native()), old)
    }

    #[inline(always)]
    fn fetch_xor(&self, val: bool, order: MemOrder) -> bool {
        AtomicBool::fetch_xor(self, val, order.to_std())
    }
}

} // verus!
