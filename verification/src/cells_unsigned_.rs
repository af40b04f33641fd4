use crate::atomic_cell_::{Bitwise, NumOps, TrAtomicCell, TrAtomicData};
use crate::fetch;
use crate::fetch::{takes_any, update_outcome};
use crate::mem_order_::MemOrder;
use core::sync::atomic::Ordering;
use core::sync::atomic::{AtomicU8, AtomicU16, AtomicU32, AtomicU64, AtomicUsize};
use vstd::prelude::*;

verus! {

/// `AtomicU8::into_inner` hands out the value of a cell that nobody else
/// can reach any more. Nothing is claimed of that value.
#[verifier::external_body]
fn u8_into_inner(cell: AtomicU8) -> u8 {
    cell.into_inner()
}

/// `AtomicU8::fetch_update` reads the cell with `fetch_order` and offers
/// each value that it sees to `f`, until `f` declines one or the value that
/// `f` gave for one has been stored in its place with `set_order`. It
/// answers `Ok` with the value that was replaced, or `Err` with the value
/// that `f` declined. It does not accept a `fetch_order` that releases.
#[verifier::external_body]
fn u8_fetch_update<F: FnMut(u8) -> Option<u8>>(
    cell: &AtomicU8,
    set_order: Ordering,
    fetch_order: Ordering,
    f: F,
) -> (r: Result<u8, u8>)
    requires
        fetch_order != Ordering::Release,
        fetch_order != Ordering::AcqRel,
        takes_any(f),
    ensures
        update_outcome(f, r),
{
    cell.fetch_update(set_order, fetch_order, f)
}

impl TrAtomicData for u8 {
    type AtomicCell = AtomicU8;
}

/// Every request goes to the method of `AtomicU8` of the same name, with the
/// native ordering of the same name, and is answered as that method answers.
impl TrAtomicCell for AtomicU8 {
    type Value = u8;

    open spec fn new_answers(val: u8, cell: Self) -> bool {
        call_ensures(AtomicU8::new, (val,), cell)
    }

    closed spec fn into_inner_answers(self, val: u8) -> bool {
        call_ensures(u8_into_inner, (self,), val)
    }

    open spec fn load_answers(&self, order: MemOrder, val: u8) -> bool {
        call_ensures(AtomicU8::load, (self, order.native()), val)
    }

    open spec fn store_answers(&self, val: u8, order: MemOrder) -> bool {
        call_ensures(AtomicU8::store, (self, val, order.native()), ())
    }

    open spec fn swap_answers(&self, val: u8, order: MemOrder, old: u8) -> bool {
        call_ensures(AtomicU8::swap, (self, val, order.native()), old)
    }

    open spec fn compare_exchange_answers(
        &self,
        current: u8,
        desired: u8,
        success: MemOrder,
        failure: MemOrder,
        r: Result<u8, u8>,
    ) -> bool {
        call_ensures(
            AtomicU8::compare_exchange,
            (self, current, desired, success.native(), failure.native()),
            r,
        )
    }

    open spec fn compare_exchange_weak_answers(
        &self,
        current: u8,
        desired: u8,
        success: MemOrder,
        failure: MemOrder,
        r: Result<u8, u8>,
    ) -> bool {
        call_ensures(
            AtomicU8::compare_exchange_weak,
            (self, current, desired, success.native(), failure.native()),
            r,
        )
    }

    #[inline(always)]
    fn new(val: u8) -> Self {
        AtomicU8::new(val)
    }

    #[inline(always)]
    fn into_inner(self) -> u8 {
        u8_into_inner(self)
    }

    #[inline(always)]
    fn load(&self, order: MemOrder) -> u8 {
        AtomicU8::load(self, order.to_std())
    }

    #[inline(always)]
    fn store(&self, val: u8, order: MemOrder) {
        AtomicU8::store(self, val, order.to_std())
    }

    #[inline(always)]
    fn swap(&self, val: u8, order: MemOrder) -> u8 {
        AtomicU8::swap(self, val, order.to_std())
    }

    #[inline(always)]
    fn compare_exchange(
        &self,
        current: u8,
        desired: u8,
        success: MemOrder,
        failure: MemOrder,
    ) -> Result<u8, u8> {
        AtomicU8::compare_exchange(self, current, desired, success.to_std(), failure.to_std())
    }

    #[inline(always)]
    fn compare_exchange_weak(
        &self,
        current: u8,
        desired: u8,
        success: MemOrder,
        failure: MemOrder,
    ) -> Result<u8, u8> {
        AtomicU8::compare_exchange_weak(self, current, desired, success.to_std(), failure.to_std())
    }
}

impl fetch::Update for AtomicU8 {
    type Value = u8;

    #[inline(always)]
    fn fetch_update<F>(&self, fetch_order: MemOrder, set_order: MemOrder, f: F) -> (r: Result<
        u8,
        u8,
    >) where F: FnMut(u8) -> Option<u8> {
        u8_fetch_update(self, set_order.to_std(), fetch_order.to_std(), f)
    }
}

impl Bitwise for AtomicU8 {
}

impl fetch::And for AtomicU8 {
    type Value = u8;

    open spec fn fetch_and_answers(&self, val: u8, order: MemOrder, old: u8) -> bool {
        call_ensures(AtomicU8::fetch_and, (self, val, order.native()), old)
    }

    #[inline(always)]
    fn fetch_and(&self, val: u8, order: MemOrder) -> u8 {
        AtomicU8::fetch_and(self, val, order.to_std())
    }
}

impl fetch::Nand for AtomicU8 {
    type Value = u8;

    open spec fn fetch_nand_answers(&self, val: u8, order: MemOrder, old: u8) -> bool {
        call_ensures(AtomicU8::fetch_nand, (self, val, order.native()), old)
    }

    #[inline(always)]
    fn fetch_nand(&self, val: u8, order: MemOrder) -> u8 {
        AtomicU8::fetch_nand(self, val, order.to_std())
    }
}

impl fetch::Or for AtomicU8 {
    type Value = u8;

    open spec fn fetch_or_answers(&self, val: u8, order: MemOrder, old: u8) -> bool {
        call_ensures(AtomicU8::fetch_or, (self, val, order.native()), old)
    }

    #[inline(always)]
    fn fetch_or(&self, val: u8, order: MemOrder) -> u8 {
        AtomicU8::fetch_or(self, val, order.to_std())
    }
}

impl fetch::Xor for AtomicU8 {
    type Value = u8;

    open spec fn fetch_xor_answers(&self, val: u8, order: MemOrder, old: u8) -> bool {
        call_ensures(AtomicU8::fetch_xor, (self, val, order.native()), old)
    }

    #[inline(always)]
    fn fetch_xor(&self, val: u8, order: MemOrder) -> u8 {
        AtomicU8::fetch_xor(self, val, order.to_std())
    }
}

impl NumOps for AtomicU8 {
}

impl fetch::Add for AtomicU8 {
    type Value = u8;

    open spec fn fetch_add_answers(&self, val: u8, order: MemOrder, old: u8) -> bool {
        call_ensures(AtomicU8::fetch_add, (self, val, order.native()), old)
    }

    #[inline(always)]
    fn fetch_add(&self, val: u8, order: MemOrder) -> u8 {
        AtomicU8::fetch_add(self, val, order.to_std())
    }
}

impl fetch::Sub for AtomicU8 {
    type Value = u8;

    open spec fn fetch_sub_answers(&self, val: u8, order: MemOrder, old: u8) -> bool {
        call_ensures(AtomicU8::fetch_sub, (self, val, order.native()), old)
    }

    #[inline(always)]
    fn fetch_sub(&self, val: u8, order: MemOrder) -> u8 {
        AtomicU8::fetch_sub(self, val, order.to_std())
    }
}

impl fetch::Max for AtomicU8 {
    type Value = u8;

    open spec fn fetch_max_answers(&self, val: u8, order: MemOrder, old: u8) -> bool {
        call_ensures(AtomicU8::fetch_max, (self, val, order.native()), old)
    }

    #[inline(always)]
    fn fetch_max(&self, val: u8, order: MemOrder) -> u8 {
        AtomicU8::fetch_max(self, val, order.to_std())
    }
}

impl fetch::Min for AtomicU8 {
    type Value = u8;

    open spec fn fetch_min_answers(&self, val: u8, order: MemOrder, old: u8) -> bool {
        call_ensures(AtomicU8::fetch_min, (self, val, order.native()), old)
    }

    #[inline(always)]
    fn fetch_min(&self, val: u8, order: MemOrder) -> u8 {
        AtomicU8::fetch_min(self, val, order.to_std())
    }
}

/// `AtomicU16::into_inner` hands out the value of a cell that nobody else
/// can reach any more. Nothing is claimed of that value.
#[verifier::external_body]
fn u16_into_inner(cell: AtomicU16) -> u16 {
    cell.into_inner()
}

/// `AtomicU16::fetch_update` reads the cell with `fetch_order` and offers
/// each value that it sees to `f`, until `f` declines one or the value that
/// `f` gave for one has been stored in its place with `set_order`. It
/// answers `Ok` with the value that was replaced, or `Err` with the value
/// that `f` declined. It does not accept a `fetch_order` that releases.
#[verifier::external_body]
fn u16_fetch_update<F: FnMut(u16) -> Option<u16>>(
    cell: &AtomicU16,
    set_order: Ordering,
    fetch_order: Ordering,
    f: F,
) -> (r: Result<u16, u16>)
    requires
        fetch_order != Ordering::Release,
        fetch_order != Ordering::AcqRel,
        takes_any(f),
    ensures
        update_outcome(f, r),
{
    cell.fetch_update(set_order, fetch_order, f)
}

impl TrAtomicData for u16 {
    type AtomicCell = AtomicU16;
}

/// Every request goes to the method of `AtomicU16` of the same name, with the
/// native ordering of the same name, and is answered as that method answers.
impl TrAtomicCell for AtomicU16 {
    type Value = u16;

    open spec fn new_answers(val: u16, cell: Self) -> bool {
        call_ensures(AtomicU16::new, (val,), cell)
    }

    closed spec fn into_inner_answers(self, val: u16) -> bool {
        call_ensures(u16_into_inner, (self,), val)
    }

    open spec fn load_answers(&self, order: MemOrder, val: u16) -> bool {
        call_ensures(AtomicU16::load, (self, order.native()), val)
    }

    open spec fn store_answers(&self, val: u16, order: MemOrder) -> bool {
        call_ensures(AtomicU16::store, (self, val, order.native()), ())
    }

    open spec fn swap_answers(&self, val: u16, order: MemOrder, old: u16) -> bool {
        call_ensures(AtomicU16::swap, (self, val, order.native()), old)
    }

    open spec fn compare_exchange_answers(
        &self,
        current: u16,
        desired: u16,
        success: MemOrder,
        failure: MemOrder,
        r: Result<u16, u16>,
    ) -> bool {
        call_ensures(
            AtomicU16::compare_exchange,
            (self, current, desired, success.native(), failure.native()),
            r,
        )
    }

    open spec fn compare_exchange_weak_answers(
        &self,
        current: u16,
        desired: u16,
        success: MemOrder,
        failure: MemOrder,
        r: Result<u16, u16>,
    ) -> bool {
        call_ensures(
            AtomicU16::compare_exchange_weak,
            (self, current, desired, success.native(), failure.native()),
            r,
        )
    }

    #[inline(always)]
    fn new(val: u16) -> Self {
        AtomicU16::new(val)
    }

    #[inline(always)]
    fn into_inner(self) -> u16 {
        u16_into_inner(self)
    }

    #[inline(always)]
    fn load(&self, order: MemOrder) -> u16 {
        AtomicU16::load(self, order.to_std())
    }

    #[inline(always)]
    fn store(&self, val: u16, order: MemOrder) {
        AtomicU16::store(self, val, order.to_std())
    }

    #[inline(always)]
    fn swap(&self, val: u16, order: MemOrder) -> u16 {
        AtomicU16::swap(self, val, order.to_std())
    }

    #[inline(always)]
    fn compare_exchange(
        &self,
        current: u16,
        desired: u16,
        success: MemOrder,
        failure: MemOrder,
    ) -> Result<u16, u16> {
        AtomicU16::compare_exchange(self, current, desired, success.to_std(), failure.to_std())
    }

    #[inline(always)]
    fn compare_exchange_weak(
        &self,
        current: u16,
        desired: u16,
        success: MemOrder,
        failure: MemOrder,
    ) -> Result<u16, u16> {
        AtomicU16::compare_exchange_weak(self, current, desired, success.to_std(), failure.to_std())
    }
}

impl fetch::Update for AtomicU16 {
    type Value = u16;

    #[inline(always)]
    fn fetch_update<F>(&self, fetch_order: MemOrder, set_order: MemOrder, f: F) -> (r: Result<
        u16,
        u16,
    >) where F: FnMut(u16) -> Option<u16> {
        u16_fetch_update(self, set_order.to_std(), fetch_order.to_std(), f)
    }
}

impl Bitwise for AtomicU16 {
}

impl fetch::And for AtomicU16 {
    type Value = u16;

    open spec fn fetch_and_answers(&self, val: u16, order: MemOrder, old: u16) -> bool {
        call_ensures(AtomicU16::fetch_and, (self, val, order.native()), old)
    }

    #[inline(always)]
    fn fetch_and(&self, val: u16, order: MemOrder) -> u16 {
        AtomicU16::fetch_and(self, val, order.to_std())
    }
}

impl fetch::Nand for AtomicU16 {
    type Value = u16;

    open spec fn fetch_nand_answers(&self, val: u16, order: MemOrder, old: u16) -> bool {
        call_ensures(AtomicU16::fetch_nand, (self, val, order.native()), old)
    }

    #[inline(always)]
    fn fetch_nand(&self, val: u16, order: MemOrder) -> u16 {
        AtomicU16::fetch_nand(self, val, order.to_std())
    }
}

impl fetch::Or for AtomicU16 {
    type Value = u16;

    open spec fn fetch_or_answers(&self, val: u16, order: MemOrder, old: u16) -> bool {
        call_ensures(AtomicU16::fetch_or, (self, val, order.native()), old)
    }

    #[inline(always)]
    fn fetch_or(&self, val: u16, order: MemOrder) -> u16 {
        AtomicU16::fetch_or(self, val, order.to_std())
    }
}

impl fetch::Xor for AtomicU16 {
    type Value = u16;

    open spec fn fetch_xor_answers(&self, val: u16, order: MemOrder, old: u16) -> bool {
        call_ensures(AtomicU16::fetch_xor, (self, val, order.native()), old)
    }

    #[inline(always)]
    fn fetch_xor(&self, val: u16, order: MemOrder) -> u16 {
        AtomicU16::fetch_xor(self, val, order.to_std())
    }
}

impl NumOps for AtomicU16 {
}

impl fetch::Add for AtomicU16 {
    type Value = u16;

    open spec fn fetch_add_answers(&self, val: u16, order: MemOrder, old: u16) -> bool {
        call_ensures(AtomicU16::fetch_add, (self, val, order.native()), old)
    }

    #[inline(always)]
    fn fetch_add(&self, val: u16, order: MemOrder) -> u16 {
        AtomicU16::fetch_add(self, val, order.to_std())
    }
}

impl fetch::Sub for AtomicU16 {
    type Value = u16;

    open spec fn fetch_sub_answers(&self, val: u16, order: MemOrder, old: u16) -> bool {
        call_ensures(AtomicU16::fetch_sub, (self, val, order.native()), old)
    }

    #[inline(always)]
    fn fetch_sub(&self, val: u16, order: MemOrder) -> u16 {
        AtomicU16::fetch_sub(self, val, order.to_std())
    }
}

impl fetch::Max for AtomicU16 {
    type Value = u16;

    open spec fn fetch_max_answers(&self, val: u16, order: MemOrder, old: u16) -> bool {
        call_ensures(AtomicU16::fetch_max, (self, val, order.native()), old)
    }

    #[inline(always)]
    fn fetch_max(&self, val: u16, order: MemOrder) -> u16 {
        AtomicU16::fetch_max(self, val, order.to_std())
    }
}

impl fetch::Min for AtomicU16 {
    type Value = u16;

    open spec fn fetch_min_answers(&self, val: u16, order: MemOrder, old: u16) -> bool {
        call_ensures(AtomicU16::fetch_min, (self, val, order.native()), old)
    }

    #[inline(always)]
    fn fetch_min(&self, val: u16, order: MemOrder) -> u16 {
        AtomicU16::fetch_min(self, val, order.to_std())
    }
}

/// `AtomicU32::into_inner` hands out the value of a cell that nobody else
/// can reach any more. Nothing is claimed of that value.
#[verifier::external_body]
fn u32_into_inner(cell: AtomicU32) -> u32 {
    cell.into_inner()
}

/// `AtomicU32::fetch_update` reads the cell with `fetch_order` and offers
/// each value that it sees to `f`, until `f` declines one or the value that
/// `f` gave for one has been stored in its place with `set_order`. It
/// answers `Ok` with the value that was replaced, or `Err` with the value
/// that `f` declined. It does not accept a `fetch_order` that releases.
#[verifier::external_body]
fn u32_fetch_update<F: FnMut(u32) -> Option<u32>>(
    cell: &AtomicU32,
    set_order: Ordering,
    fetch_order: Ordering,
    f: F,
) -> (r: Result<u32, u32>)
    requires
        fetch_order != Ordering::Release,
        fetch_order != Ordering::AcqRel,
        takes_any(f),
    ensures
        update_outcome(f, r),
{
    cell.fetch_update(set_order, fetch_order, f)
}

impl TrAtomicData for u32 {
    type AtomicCell = AtomicU32;
}

/// Every request goes to the method of `AtomicU32` of the same name, with the
/// native ordering of the same name, and is answered as that method answers.
impl TrAtomicCell for AtomicU32 {
    type Value = u32;

    open spec fn new_answers(val: u32, cell: Self) -> bool {
        call_ensures(AtomicU32::new, (val,), cell)
    }

    closed spec fn into_inner_answers(self, val: u32) -> bool {
        call_ensures(u32_into_inner, (self,), val)
    }

    open spec fn load_answers(&self, order: MemOrder, val: u32) -> bool {
        call_ensures(AtomicU32::load, (self, order.native()), val)
    }

    open spec fn store_answers(&self, val: u32, order: MemOrder) -> bool {
        call_ensures(AtomicU32::store, (self, val, order.native()), ())
    }

    open spec fn swap_answers(&self, val: u32, order: MemOrder, old: u32) -> bool {
        call_ensures(AtomicU32::swap, (self, val, order.native()), old)
    }

    open spec fn compare_exchange_answers(
        &self,
        current: u32,
        desired: u32,
        success: MemOrder,
        failure: MemOrder,
        r: Result<u32, u32>,
    ) -> bool {
        call_ensures(
            AtomicU32::compare_exchange,
            (self, current, desired, success.native(), failure.native()),
            r,
        )
    }

    open spec fn compare_exchange_weak_answers(
        &self,
        current: u32,
        desired: u32,
        success: MemOrder,
        failure: MemOrder,
        r: Result<u32, u32>,
    ) -> bool {
        call_ensures(
            AtomicU32::compare_exchange_weak,
            (self, current, desired, success.native(), failure.native()),
            r,
        )
    }

    #[inline(always)]
    fn new(val: u32) -> Self {
        AtomicU32::new(val)
    }

    #[inline(always)]
    fn into_inner(self) -> u32 {
        u32_into_inner(self)
    }

    #[inline(always)]
    fn load(&self, order: MemOrder) -> u32 {
        AtomicU32::load(self, order.to_std())
    }

    #[inline(always)]
    fn store(&self, val: u32, order: MemOrder) {
        AtomicU32::store(self, val, order.to_std())
    }

    #[inline(always)]
    fn swap(&self, val: u32, order: MemOrder) -> u32 {
        AtomicU32::swap(self, val, order.to_std())
    }

    #[inline(always)]
    fn compare_exchange(
        &self,
        current: u32,
        desired: u32,
        success: MemOrder,
        failure: MemOrder,
    ) -> Result<u32, u32> {
        AtomicU32::compare_exchange(self, current, desired, success.to_std(), failure.to_std())
    }

    #[inline(always)]
    fn compare_exchange_weak(
        &self,
        current: u32,
        desired: u32,
        success: MemOrder,
        failure: MemOrder,
    ) -> Result<u32, u32> {
        AtomicU32::compare_exchange_weak(self, current, desired, success.to_std(), failure.to_std())
    }
}

impl fetch::Update for AtomicU32 {
    type Value = u32;

    #[inline(always)]
    fn fetch_update<F>(&self, fetch_order: MemOrder, set_order: MemOrder, f: F) -> (r: Result<
        u32,
        u32,
    >) where F: FnMut(u32) -> Option<u32> {
        u32_fetch_update(self, set_order.to_std(), fetch_order.to_std(), f)
    }
}

impl Bitwise for AtomicU32 {
}

impl fetch::And for AtomicU32 {
    type Value = u32;

    open spec fn fetch_and_answers(&self, val: u32, order: MemOrder, old: u32) -> bool {
        call_ensures(AtomicU32::fetch_and, (self, val, order.native()), old)
    }

    #[inline(always)]
    fn fetch_and(&self, val: u32, order: MemOrder) -> u32 {
        AtomicU32::fetch_and(self, val, order.to_std())
    }
}

impl fetch::Nand for AtomicU32 {
    type Value = u32;

    open spec fn fetch_nand_answers(&self, val: u32, order: MemOrder, old: u32) -> bool {
        call_ensures(AtomicU32::fetch_nand, (self, val, order.native()), old)
    }

    #[inline(always)]
    fn fetch_nand(&self, val: u32, order: MemOrder) -> u32 {
        AtomicU32::fetch_nand(self, val, order.to_std())
    }
}

impl fetch::Or for AtomicU32 {
    type Value = u32;

    open spec fn fetch_or_answers(&self, val: u32, order: MemOrder, old: u32) -> bool {
        call_ensures(AtomicU32::fetch_or, (self, val, order.native()), old)
    }

    #[inline(always)]
    fn fetch_or(&self, val: u32, order: MemOrder) -> u32 {
        AtomicU32::fetch_or(self, val, order.to_std())
    }
}

impl fetch::Xor for AtomicU32 {
    type Value = u32;

    open spec fn fetch_xor_answers(&self, val: u32, order: MemOrder, old: u32) -> bool {
        call_ensures(AtomicU32::fetch_xor, (self, val, order.native()), old)
    }

    #[inline(always)]
    fn fetch_xor(&self, val: u32, order: MemOrder) -> u32 {
        AtomicU32::fetch_xor(self, val, order.to_std())
    }
}

impl NumOps for AtomicU32 {
}

impl fetch::Add for AtomicU32 {
    type Value = u32;

    open spec fn fetch_add_answers(&self, val: u32, order: MemOrder, old: u32) -> bool {
        call_ensures(AtomicU32::fetch_add, (self, val, order.native()), old)
    }

    #[inline(always)]
    fn fetch_add(&self, val: u32, order: MemOrder) -> u32 {
        AtomicU32::fetch_add(self, val, order.to_std())
    }
}

impl fetch::Sub for AtomicU32 {
    type Value = u32;

    open spec fn fetch_sub_answers(&self, val: u32, order: MemOrder, old: u32) -> bool {
        call_ensures(AtomicU32::fetch_sub, (self, val, order.native()), old)
    }

    #[inline(always)]
    fn fetch_sub(&self, val: u32, order: MemOrder) -> u32 {
        AtomicU32::fetch_sub(self, val, order.to_std())
    }
}

impl fetch::Max for AtomicU32 {
    type Value = u32;

    open spec fn fetch_max_answers(&self, val: u32, order: MemOrder, old: u32) -> bool {
        call_ensures(AtomicU32::fetch_max, (self, val, order.native()), old)
    }

    #[inline(always)]
    fn fetch_max(&self, val: u32, order: MemOrder) -> u32 {
        AtomicU32::fetch_max(self, val, order.to_std())
    }
}

impl fetch::Min for AtomicU32 {
    type Value = u32;

    open spec fn fetch_min_answers(&self, val: u32, order: MemOrder, old: u32) -> bool {
        call_ensures(AtomicU32::fetch_min, (self, val, order.native()), old)
    }

    #[inline(always)]
    fn fetch_min(&self, val: u32, order: MemOrder) -> u32 {
        AtomicU32::fetch_min(self, val, order.to_std())
    }
}

/// `AtomicU64::into_inner` hands out the value of a cell that nobody else
/// can reach any more. Nothing is claimed of that value.
#[verifier::external_body]
fn u64_into_inner(cell: AtomicU64) -> u64 {
    cell.into_inner()
}

/// `AtomicU64::fetch_update` reads the cell with `fetch_order` and offers
/// each value that it sees to `f`, until `f` declines one or the value that
/// `f` gave for one has been stored in its place with `set_order`. It
/// answers `Ok` with the value that was replaced, or `Err` with the value
/// that `f` declined. It does not accept a `fetch_order` that releases.
#[verifier::external_body]
fn u64_fetch_update<F: FnMut(u64) -> Option<u64>>(
    cell: &AtomicU64,
    set_order: Ordering,
    fetch_order: Ordering,
    f: F,
) -> (r: Result<u64, u64>)
    requires
        fetch_order != Ordering::Release,
        fetch_order != Ordering::AcqRel,
        takes_any(f),
    ensures
        update_outcome(f, r),
{
    cell.fetch_update(set_order, fetch_order, f)
}

impl TrAtomicData for u64 {
    type AtomicCell = AtomicU64;
}

/// Every request goes to the method of `AtomicU64` of the same name, with the
/// native ordering of the same name, and is answered as that method answers.
impl TrAtomicCell for AtomicU64 {
    type Value = u64;

    open spec fn new_answers(val: u64, cell: Self) -> bool {
        call_ensures(AtomicU64::new, (val,), cell)
    }

    closed spec fn into_inner_answers(self, val: u64) -> bool {
        call_ensures(u64_into_inner, (self,), val)
    }

    open spec fn load_answers(&self, order: MemOrder, val: u64) -> bool {
        call_ensures(AtomicU64::load, (self, order.native()), val)
    }

    open spec fn store_answers(&self, val: u64, order: MemOrder) -> bool {
        call_ensures(AtomicU64::store, (self, val, order.native()), ())
    }

    open spec fn swap_answers(&self, val: u64, order: MemOrder, old: u64) -> bool {
        call_ensures(AtomicU64::swap, (self, val, order.native()), old)
    }

    open spec fn compare_exchange_answers(
        &self,
        current: u64,
        desired: u64,
        success: MemOrder,
        failure: MemOrder,
        r: Result<u64, u64>,
    ) -> bool {
        call_ensures(
            AtomicU64::compare_exchange,
            (self, current, desired, success.native(), failure.native()),
            r,
        )
    }

    open spec fn compare_exchange_weak_answers(
        &self,
        current: u64,
        desired: u64,
        success: MemOrder,
        failure: MemOrder,
        r: Result<u64, u64>,
    ) -> bool {
        call_ensures(
            AtomicU64::compare_exchange_weak,
            (self, current, desired, success.native(), failure.native()),
            r,
        )
    }

    #[inline(always)]
    fn new(val: u64) -> Self {
        AtomicU64::new(val)
    }

    #[inline(always)]
    fn into_inner(self) -> u64 {
        u64_into_inner(self)
    }

    #[inline(always)]
    fn load(&self, order: MemOrder) -> u64 {
        AtomicU64::load(self, order.to_std())
    }

    #[inline(always)]
    fn store(&self, val: u64, order: MemOrder) {
        AtomicU64::store(self, val, order.to_std())
    }

    #[inline(always)]
    fn swap(&self, val: u64, order: MemOrder) -> u64 {
        AtomicU64::swap(self, val, order.to_std())
    }

    #[inline(always)]
    fn compare_exchange(
        &self,
        current: u64,
        desired: u64,
        success: MemOrder,
        failure: MemOrder,
    ) -> Result<u64, u64> {
        AtomicU64::compare_exchange(self, current, desired, success.to_std(), failure.to_std())
    }

    #[inline(always)]
    fn compare_exchange_weak(
        &self,
        current: u64,
        desired: u64,
        success: MemOrder,
        failure: MemOrder,
    ) -> Result<u64, u64> {
        AtomicU64::compare_exchange_weak(self, current, desired, success.to_std(), failure.to_std())
    }
}

impl fetch::Update for AtomicU64 {
    type Value = u64;

    #[inline(always)]
    fn fetch_update<F>(&self, fetch_order: MemOrder, set_order: MemOrder, f: F) -> (r: Result<
        u64,
        u64,
    >) where F: FnMut(u64) -> Option<u64> {
        u64_fetch_update(self, set_order.to_std(), fetch_order.to_std(), f)
    }
}

impl Bitwise for AtomicU64 {
}

impl fetch::And for AtomicU64 {
    type Value = u64;

    open spec fn fetch_and_answers(&self, val: u64, order: MemOrder, old: u64) -> bool {
        call_ensures(AtomicU64::fetch_and, (self, val, order.native()), old)
    }

    #[inline(always)]
    fn fetch_and(&self, val: u64, order: MemOrder) -> u64 {
        AtomicU64::fetch_and(self, val, order.to_std())
    }
}

impl fetch::Nand for AtomicU64 {
    type Value = u64;

    open spec fn fetch_nand_answers(&self, val: u64, order: MemOrder, old: u64) -> bool {
        call_ensures(AtomicU64::fetch_nand, (self, val, order.native()), old)
    }

    #[inline(always)]
    fn fetch_nand(&self, val: u64, order: MemOrder) -> u64 {
        AtomicU64::fetch_nand(self, val, order.to_std())
    }
}

impl fetch::Or for AtomicU64 {
    type Value = u64;

    open spec fn fetch_or_answers(&self, val: u64, order: MemOrder, old: u64) -> bool {
        call_ensures(AtomicU64::fetch_or, (self, val, order.native()), old)
    }

    #[inline(always)]
    fn fetch_or(&self, val: u64, order: MemOrder) -> u64 {
        AtomicU64::fetch_or(self, val, order.to_std())
    }
}

impl fetch::Xor for AtomicU64 {
    type Value = u64;

    open spec fn fetch_xor_answers(&self, val: u64, order: MemOrder, old: u64) -> bool {
        call_ensures(AtomicU64::fetch_xor, (self, val, order.native()), old)
    }

    #[inline(always)]
    fn fetch_xor(&self, val: u64, order: MemOrder) -> u64 {
        AtomicU64::fetch_xor(self, val, order.to_std())
    }
}

impl NumOps for AtomicU64 {
}

impl fetch::Add for AtomicU64 {
    type Value = u64;

    open spec fn fetch_add_answers(&self, val: u64, order: MemOrder, old: u64) -> bool {
        call_ensures(AtomicU64::fetch_add, (self, val, order.native()), old)
    }

    #[inline(always)]
    fn fetch_add(&self, val: u64, order: MemOrder) -> u64 {
        AtomicU64::fetch_add(self, val, order.to_std())
    }
}

impl fetch::Sub for AtomicU64 {
    type Value = u64;

    open spec fn fetch_sub_answers(&self, val: u64, order: MemOrder, old: u64) -> bool {
        call_ensures(AtomicU64::fetch_sub, (self, val, order.native()), old)
    }

    #[inline(always)]
    fn fetch_sub(&self, val: u64, order: MemOrder) -> u64 {
        AtomicU64::fetch_sub(self, val, order.to_std())
    }
}

impl fetch::Max for AtomicU64 {
    type Value = u64;

    open spec fn fetch_max_answers(&self, val: u64, order: MemOrder, old: u64) -> bool {
        call_ensures(AtomicU64::fetch_max, (self, val, order.native()), old)
    }

    #[inline(always)]
    fn fetch_max(&self, val: u64, order: MemOrder) -> u64 {
        AtomicU64::fetch_max(self, val, order.to_std())
    }
}

impl fetch::Min for AtomicU64 {
    type Value = u64;

    open spec fn fetch_min_answers(&self, val: u64, order: MemOrder, old: u64) -> bool {
        call_ensures(AtomicU64::fetch_min, (self, val, order.native()), old)
    }

    #[inline(always)]
    fn fetch_min(&self, val: u64, order: MemOrder) -> u64 {
        AtomicU64::fetch_min(self, val, order.to_std())
    }
}

/// `AtomicUsize::into_inner` hands out the value of a cell that nobody else
/// can reach any more. Nothing is claimed of that value.
#[verifier::external_body]
fn usize_into_inner(cell: AtomicUsize) -> usize {
    cell.into_inner()
}

/// `AtomicUsize::fetch_update` reads the cell with `fetch_order` and offers
/// each value that it sees to `f`, until `f` declines one or the value that
/// `f` gave for one has been stored in its place with `set_order`. It
/// answers `Ok` with the value that was replaced, or `Err` with the value
/// that `f` declined. It does not accept a `fetch_order` that releases.
#[verifier::external_body]
fn usize_fetch_update<F: FnMut(usize) -> Option<usize>>(
    cell: &AtomicUsize,
    set_order: Ordering,
    fetch_order: Ordering,
    f: F,
) -> (r: Result<usize, usize>)
    requires
        fetch_order != Ordering::Release,
        fetch_order != Ordering::AcqRel,
        takes_any(f),
    ensures
        update_outcome(f, r),
{
    cell.fetch_update(set_order, fetch_order, f)
}

impl TrAtomicData for usize {
    type AtomicCell = AtomicUsize;
}

/// Every request goes to the method of `AtomicUsize` of the same name, with the
/// native ordering of the same name, and is answered as that method answers.
impl TrAtomicCell for AtomicUsize {
    type Value = usize;

    open spec fn new_answers(val: usize, cell: Self) -> bool {
        call_ensures(AtomicUsize::new, (val,), cell)
    }

    closed spec fn into_inner_answers(self, val: usize) -> bool {
        call_ensures(usize_into_inner, (self,), val)
    }

    open spec fn load_answers(&self, order: MemOrder, val: usize) -> bool {
        call_ensures(AtomicUsize::load, (self, order.native()), val)
    }

    open spec fn store_answers(&self, val: usize, order: MemOrder) -> bool {
        call_ensures(AtomicUsize::store, (self, val, order.native()), ())
    }

    open spec fn swap_answers(&self, val: usize, order: MemOrder, old: usize) -> bool {
        call_ensures(AtomicUsize::swap, (self, val, order.native()), old)
    }

    open spec fn compare_exchange_answers(
        &self,
        current: usize,
        desired: usize,
        success: MemOrder,
        failure: MemOrder,
        r: Result<usize, usize>,
    ) -> bool {
        call_ensures(
            AtomicUsize::compare_exchange,
            (self, current, desired, success.native(), failure.native()),
            r,
        )
    }

    open spec fn compare_exchange_weak_answers(
        &self,
        current: usize,
        desired: usize,
        success: MemOrder,
        failure: MemOrder,
        r: Result<usize, usize>,
    ) -> bool {
        call_ensures(
            AtomicUsize::compare_exchange_weak,
            (self, current, desired, success.native(), failure.native()),
            r,
        )
    }

    #[inline(always)]
    fn new(val: usize) -> Self {
        AtomicUsize::new(val)
    }

    #[inline(always)]
    fn into_inner(self) -> usize {
        usize_into_inner(self)
    }

    #[inline(always)]
    fn load(&self, order: MemOrder) -> usize {
        AtomicUsize::load(self, order.to_std())
    }

    #[inline(always)]
    fn store(&self, val: usize, order: MemOrder) {
        AtomicUsize::store(self, val, order.to_std())
    }

    #[inline(always)]
    fn swap(&self, val: usize, order: MemOrder) -> usize {
        AtomicUsize::swap(self, val, order.to_std())
    }

    #[inline(always)]
    fn compare_exchange(
        &self,
        current: usize,
        desired: usize,
        success: MemOrder,
        failure: MemOrder,
    ) -> Result<usize, usize> {
        AtomicUsize::compare_exchange(self, current, desired, success.to_std(), failure.to_std())
    }

    #[inline(always)]
    fn compare_exchange_weak(
        &self,
        current: usize,
        desired: usize,
        success: MemOrder,
        failure: MemOrder,
    ) -> Result<usize, usize> {
        AtomicUsize::compare_exchange_weak(self, current, desired, success.to_std(), failure.to_std())
    }
}

impl fetch::Update for AtomicUsize {
    type Value = usize;

    #[inline(always)]
    fn fetch_update<F>(&self, fetch_order: MemOrder, set_order: MemOrder, f: F) -> (r: Result<
        usize,
        usize,
    >) where F: FnMut(usize) -> Option<usize> {
        usize_fetch_update(self, set_order.to_std(), fetch_order.to_std(), f)
    }
}

impl Bitwise for AtomicUsize {
}

impl fetch::And for AtomicUsize {
    type Value = usize;

    open spec fn fetch_and_answers(&self, val: usize, order: MemOrder, old: usize) -> bool {
        call_ensures(AtomicUsize::fetch_and, (self, val, order.native()), old)
    }

    #[inline(always)]
    fn fetch_and(&self, val: usize, order: MemOrder) -> usize {
        AtomicUsize::fetch_and(self, val, order.to_std())
    }
}

impl fetch::Nand for AtomicUsize {
    type Value = usize;

    open spec fn fetch_nand_answers(&self, val: usize, order: MemOrder, old: usize) -> bool {
        call_ensures(AtomicUsize::fetch_nand, (self, val, order.native()), old)
    }

    #[inline(always)]
    fn fetch_nand(&self, val: usize, order: MemOrder) -> usize {
        AtomicUsize::fetch_nand(self, val, order.to_std())
    }
}

impl fetch::Or for AtomicUsize {
    type Value = usize;

    open spec fn fetch_or_answers(&self, val: usize, order: MemOrder, old: usize) -> bool {
        call_ensures(AtomicUsize::fetch_or, (self, val, order.native()), old)
    }

    #[inline(always)]
    fn fetch_or(&self, val: usize, order: MemOrder) -> usize {
        AtomicUsize::fetch_or(self, val, order.to_std())
    }
}

impl fetch::Xor for AtomicUsize {
    type Value = usize;

    open spec fn fetch_xor_answers(&self, val: usize, order: MemOrder, old: usize) -> bool {
        call_ensures(AtomicUsize::fetch_xor, (self, val, order.native()), old)
    }

    #[inline(always)]
    fn fetch_xor(&self, val: usize, order: MemOrder) -> usize {
        AtomicUsize::fetch_xor(self, val, order.to_std())
    }
}

impl NumOps for AtomicUsize {
}

impl fetch::Add for AtomicUsize {
    type Value = usize;

    open spec fn fetch_add_answers(&self, val: usize, order: MemOrder, old: usize) -> bool {
        call_ensures(AtomicUsize::fetch_add, (self, val, order.native()), old)
    }

    #[inline(always)]
    fn fetch_add(&self, val: usize, order: MemOrder) -> usize {
        AtomicUsize::fetch_add(self, val, order.to_std())
    }
}

impl fetch::Sub for AtomicUsize {
    type Value = usize;

    open spec fn fetch_sub_answers(&self, val: usize, order: MemOrder, old: usize) -> bool {
        call_ensures(AtomicUsize::fetch_sub, (self, val, order.native()), old)
    }

    #[inline(always)]
    fn fetch_sub(&self, val: usize, order: MemOrder) -> usize {
        AtomicUsize::fetch_sub(self, val, order.to_std())
    }
}

impl fetch::Max for AtomicUsize {
    type Value = usize;

    open spec fn fetch_max_answers(&self, val: usize, order: MemOrder, old: usize) -> bool {
        call_ensures(AtomicUsize::fetch_max, (self, val, order.native()), old)
    }

    #[inline(always)]
    fn fetch_max(&self, val: usize, order: MemOrder) -> usize {
        AtomicUsize::fetch_max(self, val, order.to_std())
    }
}

impl fetch::Min for AtomicUsize {
    type Value = usize;

    open spec fn fetch_min_answers(&self, val: usize, order: MemOrder, old: usize) -> bool {
        call_ensures(AtomicUsize::fetch_min, (self, val, order.native()), old)
    }

    #[inline(always)]
    fn fetch_min(&self, val: usize, order: MemOrder) -> usize {
        AtomicUsize::fetch_min(self, val, order.to_std())
    }
}

} // verus!
