use crate::atomic_cell_::{Bitwise, NumOps, TrAtomicCell, TrAtomicData};
use crate::fetch;
use crate::fetch::{takes_any, update_outcome};
use crate::mem_order_::MemOrder;
use core::sync::atomic::Ordering;
use core::sync::atomic::{AtomicI8, AtomicI16, AtomicI32, AtomicI64, AtomicIsize};
use vstd::prelude::*;

verus! {

/// `AtomicI8::into_inner` hands out the value of a cell that nobody else
/// can reach any more. Nothing is claimed of that value.
#[verifier::external_body]
fn i8_into_inner(cell: AtomicI8) -> i8 {
    cell.into_inner()
}

/// `AtomicI8::fetch_update` reads the cell with `fetch_order` and offers
/// each value that it sees to `f`, until `f` declines one or the value that
/// `f` gave for one has been stored in its place with `set_order`. It
/// answers `Ok` with the value that was replaced, or `Err` with the value
/// that `f` declined. It does not accept a `fetch_order` that releases.
#[verifier::external_body]
fn i8_fetch_update<F: FnMut(i8) -> Option<i8>>(
    cell: &AtomicI8,
    set_order: Ordering,
    fetch_order: Ordering,
    f: F,
) -> (r: Result<i8, i8>)
    requires
        fetch_order != Ordering::Release,
        fetch_order != Ordering::AcqRel,
        takes_any(f),
    ensures
        update_outcome(f, r),
{
    cell.fetch_update(set_order, fetch_order, f)
}

impl TrAtomicData for i8 {
    type AtomicCell = AtomicI8;
}

/// Every request goes to the method of `AtomicI8` of the same name, with the
/// native ordering of the same name, and is answered as that method answers.
impl TrAtomicCell for AtomicI8 {
    type Value = i8;

    open spec fn new_answers(val: i8, cell: Self) -> bool {
        call_ensures(AtomicI8::new, (val,), cell)
    }

    closed spec fn into_inner_answers(self, val: i8) -> bool {
        call_ensures(i8_into_inner, (self,), val)
    }

    open spec fn load_answers(&self, order: MemOrder, val: i8) -> bool {
        call_ensures(AtomicI8::load, (self, order.native()), val)
    }

    open spec fn store_answers(&self, val: i8, order: MemOrder) -> bool {
        call_ensures(AtomicI8::store, (self, val, order.native()), ())
    }

    open spec fn swap_answers(&self, val: i8, order: MemOrder, old: i8) -> bool {
        call_ensures(AtomicI8::swap, (self, val, order.native()), old)
    }

    open spec fn compare_exchange_answers(
        &self,
        current: i8,
        desired: i8,
        success: MemOrder,
        failure: MemOrder,
        r: Result<i8, i8>,
    ) -> bool {
        call_ensures(
            AtomicI8::compare_exchange,
            (self, current, desired, success.native(), failure.native()),
            r,
        )
    }

    open spec fn compare_exchange_weak_answers(
        &self,
        current: i8,
        desired: i8,
        success: MemOrder,
        failure: MemOrder,
        r: Result<i8, i8>,
    ) -> bool {
        call_ensures(
            AtomicI8::compare_exchange_weak,
            (self, current, desired, success.native(), failure.native()),
            r,
        )
    }

    #[inline(always)]
    fn new(val: i8) -> Self {
        AtomicI8::new(val)
    }

    #[inline(always)]
    fn into_inner(self) -> i8 {
        i8_into_inner(self)
    }

    #[inline(always)]
    fn load(&self, order: MemOrder) -> i8 {
        AtomicI8::load(self, order.to_std())
    }

    #[inline(always)]
    fn store(&self, val: i8, order: MemOrder) {
        AtomicI8::store(self, val, order.to_std())
    }

    #[inline(always)]
    fn swap(&self, val: i8, order: MemOrder) -> i8 {
        AtomicI8::swap(self, val, order.to_std())
    }

    #[inline(always)]
    fn compare_exchange(
        &self,
        current: i8,
        desired: i8,
        success: MemOrder,
        failure: MemOrder,
    ) -> Result<i8, i8> {
        AtomicI8::compare_exchange(self, current, desired, success.to_std(), failure.to_std())
    }

    #[inline(always)]
    fn compare_exchange_weak(
        &self,
        current: i8,
        desired: i8,
        success: MemOrder,
        failure: MemOrder,
    ) -> Result<i8, i8> {
        AtomicI8::compare_exchange_weak(self, current, desired, success.to_std(), failure.to_std())
    }
}

impl fetch::Update for AtomicI8 {
    type Value = i8;

    #[inline(always)]
    fn fetch_update<F>(&self, fetch_order: MemOrder, set_order: MemOrder, f: F) -> (r: Result<
        i8,
        i8,
    >) where F: FnMut(i8) -> Option<i8> {
        i8_fetch_update(self, set_order.to_std(), fetch_order.to_std(), f)
    }
}

impl Bitwise for AtomicI8 {
}

impl fetch::And for AtomicI8 {
    type Value = i8;

    open spec fn fetch_and_answers(&self, val: i8, order: MemOrder, old: i8) -> bool {
        call_ensures(AtomicI8::fetch_and, (self, val, order.native()), old)
    }

    #[inline(always)]
    fn fetch_and(&self, val: i8, order: MemOrder) -> i8 {
        AtomicI8::fetch_and(self, val, order.to_std())
    }
}

impl fetch::Nand for AtomicI8 {
    type Value = i8;

    open spec fn fetch_nand_answers(&self, val: i8, order: MemOrder, old: i8) -> bool {
        call_ensures(AtomicI8::fetch_nand, (self, val, order.native()), old)
    }

    #[inline(always)]
    fn fetch_nand(&self, val: i8, order: MemOrder) -> i8 {
        AtomicI8::fetch_nand(self, val, order.to_std())
    }
}

impl fetch::Or for AtomicI8 {
    type Value = i8;

    open spec fn fetch_or_answers(&self, val: i8, order: MemOrder, old: i8) -> bool {
        call_ensures(AtomicI8::fetch_or, (self, val, order.native()), old)
    }

    #[inline(always)]
    fn fetch_or(&self, val: i8, order: MemOrder) -> i8 {
        AtomicI8::fetch_or(self, val, order.to_std())
    }
}

impl fetch::Xor for AtomicI8 {
    type Value = i8;

    open spec fn fetch_xor_answers(&self, val: i8, order: MemOrder, old: i8) -> bool {
        call_ensures(AtomicI8::fetch_xor, (self, val, order.native()), old)
    }

    #[inline(always)]
    fn fetch_xor(&self, val: i8, order: MemOrder) -> i8 {
        AtomicI8::fetch_xor(self, val, order.to_std())
    }
}

impl NumOps for AtomicI8 {
}

impl fetch::Add for AtomicI8 {
    type Value = i8;

    open spec fn fetch_add_answers(&self, val: i8, order: MemOrder, old: i8) -> bool {
        call_ensures(AtomicI8::fetch_add, (self, val, order.native()), old)
    }

    #[inline(always)]
    fn fetch_add(&self, val: i8, order: MemOrder) -> i8 {
        AtomicI8::fetch_add(self, val, order.to_std())
    }
}

impl fetch::Sub for AtomicI8 {
    type Value = i8;

    open spec fn fetch_sub_answers(&self, val: i8, order: MemOrder, old: i8) -> bool {
        call_ensures(AtomicI8::fetch_sub, (self, val, order.native()), old)
    }

    #[inline(always)]
    fn fetch_sub(&self, val: i8, order: MemOrder) -> i8 {
        AtomicI8::fetch_sub(self, val, order.to_std())
    }
}

impl fetch::Max for AtomicI8 {
    type Value = i8;

    open spec fn fetch_max_answers(&self, val: i8, order: MemOrder, old: i8) -> bool {
        call_ensures(AtomicI8::fetch_max, (self, val, order.native()), old)
    }

    #[inline(always)]
    fn fetch_max(&self, val: i8, order: MemOrder) -> i8 {
        AtomicI8::fetch_max(self, val, order.to_std())
    }
}

impl fetch::Min for AtomicI8 {
    type Value = i8;

    open spec fn fetch_min_answers(&self, val: i8, order: MemOrder, old: i8) -> bool {
        call_ensures(AtomicI8::fetch_min, (self, val, order.native()), old)
    }

    #[inline(always)]
    fn fetch_min(&self, val: i8, order: MemOrder) -> i8 {
        AtomicI8::fetch_min(self, val, order.to_std())
    }
}

/// `AtomicI16::into_inner` hands out the value of a cell that nobody else
/// can reach any more. Nothing is claimed of that value.
#[verifier::external_body]
fn i16_into_inner(cell: AtomicI16) -> i16 {
    cell.into_inner()
}

/// `AtomicI16::fetch_update` reads the cell with `fetch_order` and offers
/// each value that it sees to `f`, until `f` declines one or the value that
/// `f` gave for one has been stored in its place with `set_order`. It
/// answers `Ok` with the value that was replaced, or `Err` with the value
/// that `f` declined. It does not accept a `fetch_order` that releases.
#[verifier::external_body]
fn i16_fetch_update<F: FnMut(i16) -> Option<i16>>(
    cell: &AtomicI16,
    set_order: Ordering,
    fetch_order: Ordering,
    f: F,
) -> (r: Result<i16, i16>)
    requires
        fetch_order != Ordering::Release,
        fetch_order != Ordering::AcqRel,
        takes_any(f),
    ensures
        update_outcome(f, r),
{
    cell.fetch_update(set_order, fetch_order, f)
}

impl TrAtomicData for i16 {
    type AtomicCell = AtomicI16;
}

/// Every request goes to the method of `AtomicI16` of the same name, with the
/// native ordering of the same name, and is answered as that method answers.
impl TrAtomicCell for AtomicI16 {
    type Value = i16;

    open spec fn new_answers(val: i16, cell: Self) -> bool {
        call_ensures(AtomicI16::new, (val,), cell)
    }

    closed spec fn into_inner_answers(self, val: i16) -> bool {
        call_ensures(i16_into_inner, (self,), val)
    }

    open spec fn load_answers(&self, order: MemOrder, val: i16) -> bool {
        call_ensures(AtomicI16::load, (self, order.native()), val)
    }

    open spec fn store_answers(&self, val: i16, order: MemOrder) -> bool {
        call_ensures(AtomicI16::store, (self, val, order.native()), ())
    }

    open spec fn swap_answers(&self, val: i16, order: MemOrder, old: i16) -> bool {
        call_ensures(AtomicI16::swap, (self, val, order.native()), old)
    }

    open spec fn compare_exchange_answers(
        &self,
        current: i16,
        desired: i16,
        success: MemOrder,
        failure: MemOrder,
        r: Result<i16, i16>,
    ) -> bool {
        call_ensures(
            AtomicI16::compare_exchange,
            (self, current, desired, success.native(), failure.native()),
            r,
        )
    }

    open spec fn compare_exchange_weak_answers(
        &self,
        current: i16,
        desired: i16,
        success: MemOrder,
        failure: MemOrder,
        r: Result<i16, i16>,
    ) -> bool {
        call_ensures(
            AtomicI16::compare_exchange_weak,
            (self, current, desired, success.native(), failure.native()),
            r,
        )
    }

    #[inline(always)]
    fn new(val: i16) -> Self {
        AtomicI16::new(val)
    }

    #[inline(always)]
    fn into_inner(self) -> i16 {
        i16_into_inner(self)
    }

    #[inline(always)]
    fn load(&self, order: MemOrder) -> i16 {
        AtomicI16::load(self, order.to_std())
    }

    #[inline(always)]
    fn store(&self, val: i16, order: MemOrder) {
        AtomicI16::store(self, val, order.to_std())
    }

    #[inline(always)]
    fn swap(&self, val: i16, order: MemOrder) -> i16 {
        AtomicI16::swap(self, val, order.to_std())
    }

    #[inline(always)]
    fn compare_exchange(
        &self,
        current: i16,
        desired: i16,
        success: MemOrder,
        failure: MemOrder,
    ) -> Result<i16, i16> {
        AtomicI16::compare_exchange(self, current, desired, success.to_std(), failure.to_std())
    }

    #[inline(always)]
    fn compare_exchange_weak(
        &self,
        current: i16,
        desired: i16,
        success: MemOrder,
        failure: MemOrder,
    ) -> Result<i16, i16> {
        AtomicI16::compare_exchange_weak(self, current, desired, success.to_std(), failure.to_std())
    }
}

impl fetch::Update for AtomicI16 {
    type Value = i16;

    #[inline(always)]
    fn fetch_update<F>(&self, fetch_order: MemOrder, set_order: MemOrder, f: F) -> (r: Result<
        i16,
        i16,
    >) where F: FnMut(i16) -> Option<i16> {
        i16_fetch_update(self, set_order.to_std(), fetch_order.to_std(), f)
    }
}

impl Bitwise for AtomicI16 {
}

impl fetch::And for AtomicI16 {
    type Value = i16;

    open spec fn fetch_and_answers(&self, val: i16, order: MemOrder, old: i16) -> bool {
        call_ensures(AtomicI16::fetch_and, (self, val, order.native()), old)
    }

    #[inline(always)]
    fn fetch_and(&self, val: i16, order: MemOrder) -> i16 {
        AtomicI16::fetch_and(self, val, order.to_std())
    }
}

impl fetch::Nand for AtomicI16 {
    type Value = i16;

    open spec fn fetch_nand_answers(&self, val: i16, order: MemOrder, old: i16) -> bool {
        call_ensures(AtomicI16::fetch_nand, (self, val, order.native()), old)
    }

    #[inline(always)]
    fn fetch_nand(&self, val: i16, order: MemOrder) -> i16 {
        AtomicI16::fetch_nand(self, val, order.to_std())
    }
}

impl fetch::Or for AtomicI16 {
    type Value = i16;

    open spec fn fetch_or_answers(&self, val: i16, order: MemOrder, old: i16) -> bool {
        call_ensures(AtomicI16::fetch_or, (self, val, order.native()), old)
    }

    #[inline(always)]
    fn fetch_or(&self, val: i16, order: MemOrder) -> i16 {
        AtomicI16::fetch_or(self, val, order.to_std())
    }
}

impl fetch::Xor for AtomicI16 {
    type Value = i16;

    open spec fn fetch_xor_answers(&self, val: i16, order: MemOrder, old: i16) -> bool {
        call_ensures(AtomicI16::fetch_xor, (self, val, order.native()), old)
    }

    #[inline(always)]
    fn fetch_xor(&self, val: i16, order: MemOrder) -> i16 {
        AtomicI16::fetch_xor(self, val, order.to_std())
    }
}

impl NumOps for AtomicI16 {
}

impl fetch::Add for AtomicI16 {
    type Value = i16;

    open spec fn fetch_add_answers(&self, val: i16, order: MemOrder, old: i16) -> bool {
        call_ensures(AtomicI16::fetch_add, (self, val, order.native()), old)
    }

    #[inline(always)]
    fn fetch_add(&self, val: i16, order: MemOrder) -> i16 {
        AtomicI16::fetch_add(self, val, order.to_std())
    }
}

impl fetch::Sub for AtomicI16 {
    type Value = i16;

    open spec fn fetch_sub_answers(&self, val: i16, order: MemOrder, old: i16) -> bool {
        call_ensures(AtomicI16::fetch_sub, (self, val, order.native()), old)
    }

    #[inline(always)]
    fn fetch_sub(&self, val: i16, order: MemOrder) -> i16 {
        AtomicI16::fetch_sub(self, val, order.to_std())
    }
}

impl fetch::Max for AtomicI16 {
    type Value = i16;

    open spec fn fetch_max_answers(&self, val: i16, order: MemOrder, old: i16) -> bool {
        call_ensures(AtomicI16::fetch_max, (self, val, order.native()), old)
    }

    #[inline(always)]
    fn fetch_max(&self, val: i16, order: MemOrder) -> i16 {
        AtomicI16::fetch_max(self, val, order.to_std())
    }
}

impl fetch::Min for AtomicI16 {
    type Value = i16;

    open spec fn fetch_min_answers(&self, val: i16, order: MemOrder, old: i16) -> bool {
        call_ensures(AtomicI16::fetch_min, (self, val, order.native()), old)
    }

    #[inline(always)]
    fn fetch_min(&self, val: i16, order: MemOrder) -> i16 {
        AtomicI16::fetch_min(self, val, order.to_std())
    }
}

/// `AtomicI32::into_inner` hands out the value of a cell that nobody else
/// can reach any more. Nothing is claimed of that value.
#[verifier::external_body]
fn i32_into_inner(cell: AtomicI32) -> i32 {
    cell.into_inner()
}

/// `AtomicI32::fetch_update` reads the cell with `fetch_order` and offers
/// each value that it sees to `f`, until `f` declines one or the value that
/// `f` gave for one has been stored in its place with `set_order`. It
/// answers `Ok` with the value that was replaced, or `Err` with the value
/// that `f` declined. It does not accept a `fetch_order` that releases.
#[verifier::external_body]
fn i32_fetch_update<F: FnMut(i32) -> Option<i32>>(
    cell: &AtomicI32,
    set_order: Ordering,
    fetch_order: Ordering,
    f: F,
) -> (r: Result<i32, i32>)
    requires
        fetch_order != Ordering::Release,
        fetch_order != Ordering::AcqRel,
        takes_any(f),
    ensures
        update_outcome(f, r),
{
    cell.fetch_update(set_order, fetch_order, f)
}

impl TrAtomicData for i32 {
    type AtomicCell = AtomicI32;
}

/// Every request goes to the method of `AtomicI32` of the same name, with the
/// native ordering of the same name, and is answered as that method answers.
impl TrAtomicCell for AtomicI32 {
    type Value = i32;

    open spec fn new_answers(val: i32, cell: Self) -> bool {
        call_ensures(AtomicI32::new, (val,), cell)
    }

    closed spec fn into_inner_answers(self, val: i32) -> bool {
        call_ensures(i32_into_inner, (self,), val)
    }

    open spec fn load_answers(&self, order: MemOrder, val: i32) -> bool {
        call_ensures(AtomicI32::load, (self, order.native()), val)
    }

    open spec fn store_answers(&self, val: i32, order: MemOrder) -> bool {
        call_ensures(AtomicI32::store, (self, val, order.native()), ())
    }

    open spec fn swap_answers(&self, val: i32, order: MemOrder, old: i32) -> bool {
        call_ensures(AtomicI32::swap, (self, val, order.native()), old)
    }

    open spec fn compare_exchange_answers(
        &self,
        current: i32,
        desired: i32,
        success: MemOrder,
        failure: MemOrder,
        r: Result<i32, i32>,
    ) -> bool {
        call_ensures(
            AtomicI32::compare_exchange,
            (self, current, desired, success.native(), failure.native()),
            r,
        )
    }

    open spec fn compare_exchange_weak_answers(
        &self,
        current: i32,
        desired: i32,
        success: MemOrder,
        failure: MemOrder,
        r: Result<i32, i32>,
    ) -> bool {
        call_ensures(
            AtomicI32::compare_exchange_weak,
            (self, current, desired, success.native(), failure.native()),
            r,
        )
    }

    #[inline(always)]
    fn new(val: i32) -> Self {
        AtomicI32::new(val)
    }

    #[inline(always)]
    fn into_inner(self) -> i32 {
        i32_into_inner(self)
    }

    #[inline(always)]
    fn load(&self, order: MemOrder) -> i32 {
        AtomicI32::load(self, order.to_std())
    }

    #[inline(always)]
    fn store(&self, val: i32, order: MemOrder) {
        AtomicI32::store(self, val, order.to_std())
    }

    #[inline(always)]
    fn swap(&self, val: i32, order: MemOrder) -> i32 {
        AtomicI32::swap(self, val, order.to_std())
    }

    #[inline(always)]
    fn compare_exchange(
        &self,
        current: i32,
        desired: i32,
        success: MemOrder,
        failure: MemOrder,
    ) -> Result<i32, i32> {
        AtomicI32::compare_exchange(self, current, desired, success.to_std(), failure.to_std())
    }

    #[inline(always)]
    fn compare_exchange_weak(
        &self,
        current: i32,
        desired: i32,
        success: MemOrder,
        failure: MemOrder,
    ) -> Result<i32, i32> {
        AtomicI32::compare_exchange_weak(self, current, desired, success.to_std(), failure.to_std())
    }
}

impl fetch::Update for AtomicI32 {
    type Value = i32;

    #[inline(always)]
    fn fetch_update<F>(&self, fetch_order: MemOrder, set_order: MemOrder, f: F) -> (r: Result<
        i32,
        i32,
    >) where F: FnMut(i32) -> Option<i32> {
        i32_fetch_update(self, set_order.to_std(), fetch_order.to_std(), f)
    }
}

impl Bitwise for AtomicI32 {
}

impl fetch::And for AtomicI32 {
    type Value = i32;

    open spec fn fetch_and_answers(&self, val: i32, order: MemOrder, old: i32) -> bool {
        call_ensures(AtomicI32::fetch_and, (self, val, order.native()), old)
    }

    #[inline(always)]
    fn fetch_and(&self, val: i32, order: MemOrder) -> i32 {
        AtomicI32::fetch_and(self, val, order.to_std())
    }
}

impl fetch::Nand for AtomicI32 {
    type Value = i32;

    open spec fn fetch_nand_answers(&self, val: i32, order: MemOrder, old: i32) -> bool {
        call_ensures(AtomicI32::fetch_nand, (self, val, order.native()), old)
    }

    #[inline(always)]
    fn fetch_nand(&self, val: i32, order: MemOrder) -> i32 {
        AtomicI32::fetch_nand(self, val, order.to_std())
    }
}

impl fetch::Or for AtomicI32 {
    type Value = i32;

    open spec fn fetch_or_answers(&self, val: i32, order: MemOrder, old: i32) -> bool {
        call_ensures(AtomicI32::fetch_or, (self, val, order.native()), old)
    }

    #[inline(always)]
    fn fetch_or(&self, val: i32, order: MemOrder) -> i32 {
        AtomicI32::fetch_or(self, val, order.to_std())
    }
}

impl fetch::Xor for AtomicI32 {
    type Value = i32;

    open spec fn fetch_xor_answers(&self, val: i32, order: MemOrder, old: i32) -> bool {
        call_ensures(AtomicI32::fetch_xor, (self, val, order.native()), old)
    }

    #[inline(always)]
    fn fetch_xor(&self, val: i32, order: MemOrder) -> i32 {
        AtomicI32::fetch_xor(self, val, order.to_std())
    }
}

impl NumOps for AtomicI32 {
}

impl fetch::Add for AtomicI32 {
    type Value = i32;

    open spec fn fetch_add_answers(&self, val: i32, order: MemOrder, old: i32) -> bool {
        call_ensures(AtomicI32::fetch_add, (self, val, order.native()), old)
    }

    #[inline(always)]
    fn fetch_add(&self, val: i32, order: MemOrder) -> i32 {
        AtomicI32::fetch_add(self, val, order.to_std())
    }
}

impl fetch::Sub for AtomicI32 {
    type Value = i32;

    open spec fn fetch_sub_answers(&self, val: i32, order: MemOrder, old: i32) -> bool {
        call_ensures(AtomicI32::fetch_sub, (self, val, order.native()), old)
    }

    #[inline(always)]
    fn fetch_sub(&self, val: i32, order: MemOrder) -> i32 {
        AtomicI32::fetch_sub(self, val, order.to_std())
    }
}

impl fetch::Max for AtomicI32 {
    type Value = i32;

    open spec fn fetch_max_answers(&self, val: i32, order: MemOrder, old: i32) -> bool {
        call_ensures(AtomicI32::fetch_max, (self, val, order.native()), old)
    }

    #[inline(always)]
    fn fetch_max(&self, val: i32, order: MemOrder) -> i32 {
        AtomicI32::fetch_max(self, val, order.to_std())
    }
}

impl fetch::Min for AtomicI32 {
    type Value = i32;

    open spec fn fetch_min_answers(&self, val: i32, order: MemOrder, old: i32) -> bool {
        call_ensures(AtomicI32::fetch_min, (self, val, order.native()), old)
    }

    #[inline(always)]
    fn fetch_min(&self, val: i32, order: MemOrder) -> i32 {
        AtomicI32::fetch_min(self, val, order.to_std())
    }
}

/// `AtomicI64::into_inner` hands out the value of a cell that nobody else
/// can reach any more. Nothing is claimed of that value.
#[verifier::external_body]
fn i64_into_inner(cell: AtomicI64) -> i64 {
    cell.into_inner()
}

/// `AtomicI64::fetch_update` reads the cell with `fetch_order` and offers
/// each value that it sees to `f`, until `f` declines one or the value that
/// `f` gave for one has been stored in its place with `set_order`. It
/// answers `Ok` with the value that was replaced, or `Err` with the value
/// that `f` declined. It does not accept a `fetch_order` that releases.
#[verifier::external_body]
fn i64_fetch_update<F: FnMut(i64) -> Option<i64>>(
    cell: &AtomicI64,
    set_order: Ordering,
    fetch_order: Ordering,
    f: F,
) -> (r: Result<i64, i64>)
    requires
        fetch_order != Ordering::Release,
        fetch_order != Ordering::AcqRel,
        takes_any(f),
    ensures
        update_outcome(f, r),
{
    cell.fetch_update(set_order, fetch_order, f)
}

impl TrAtomicData for i64 {
    type AtomicCell = AtomicI64;
}

/// Every request goes to the method of `AtomicI64` of the same name, with the
/// native ordering of the same name, and is answered as that method answers.
impl TrAtomicCell for AtomicI64 {
    type Value = i64;

    open spec fn new_answers(val: i64, cell: Self) -> bool {
        call_ensures(AtomicI64::new, (val,), cell)
    }

    closed spec fn into_inner_answers(self, val: i64) -> bool {
        call_ensures(i64_into_inner, (self,), val)
    }

    open spec fn load_answers(&self, order: MemOrder, val: i64) -> bool {
        call_ensures(AtomicI64::load, (self, order.native()), val)
    }

    open spec fn store_answers(&self, val: i64, order: MemOrder) -> bool {
        call_ensures(AtomicI64::store, (self, val, order.native()), ())
    }

    open spec fn swap_answers(&self, val: i64, order: MemOrder, old: i64) -> bool {
        call_ensures(AtomicI64::swap, (self, val, order.native()), old)
    }

    open spec fn compare_exchange_answers(
        &self,
        current: i64,
        desired: i64,
        success: MemOrder,
        failure: MemOrder,
        r: Result<i64, i64>,
    ) -> bool {
        call_ensures(
            AtomicI64::compare_exchange,
            (self, current, desired, success.native(), failure.native()),
            r,
        )
    }

    open spec fn compare_exchange_weak_answers(
        &self,
        current: i64,
        desired: i64,
        success: MemOrder,
        failure: MemOrder,
        r: Result<i64, i64>,
    ) -> bool {
        call_ensures(
            AtomicI64::compare_exchange_weak,
            (self, current, desired, success.native(), failure.native()),
            r,
        )
    }

    #[inline(always)]
    fn new(val: i64) -> Self {
        AtomicI64::new(val)
    }

    #[inline(always)]
    fn into_inner(self) -> i64 {
        i64_into_inner(self)
    }

    #[inline(always)]
    fn load(&self, order: MemOrder) -> i64 {
        AtomicI64::load(self, order.to_std())
    }

    #[inline(always)]
    fn store(&self, val: i64, order: MemOrder) {
        AtomicI64::store(self, val, order.to_std())
    }

    #[inline(always)]
    fn swap(&self, val: i64, order: MemOrder) -> i64 {
        AtomicI64::swap(self, val, order.to_std())
    }

    #[inline(always)]
    fn compare_exchange(
        &self,
        current: i64,
        desired: i64,
        success: MemOrder,
        failure: MemOrder,
    ) -> Result<i64, i64> {
        AtomicI64::compare_exchange(self, current, desired, success.to_std(), failure.to_std())
    }

    #[inline(always)]
    fn compare_exchange_weak(
        &self,
        current: i64,
        desired: i64,
        success: MemOrder,
        failure: MemOrder,
    ) -> Result<i64, i64> {
        AtomicI64::compare_exchange_weak(self, current, desired, success.to_std(), failure.to_std())
    }
}

impl fetch::Update for AtomicI64 {
    type Value = i64;

    #[inline(always)]
    fn fetch_update<F>(&self, fetch_order: MemOrder, set_order: MemOrder, f: F) -> (r: Result<
        i64,
        i64,
    >) where F: FnMut(i64) -> Option<i64> {
        i64_fetch_update(self, set_order.to_std(), fetch_order.to_std(), f)
    }
}

impl Bitwise for AtomicI64 {
}

impl fetch::And for AtomicI64 {
    type Value = i64;

    open spec fn fetch_and_answers(&self, val: i64, order: MemOrder, old: i64) -> bool {
        call_ensures(AtomicI64::fetch_and, (self, val, order.native()), old)
    }

    #[inline(always)]
    fn fetch_and(&self, val: i64, order: MemOrder) -> i64 {
        AtomicI64::fetch_and(self, val, order.to_std())
    }
}

impl fetch::Nand for AtomicI64 {
    type Value = i64;

    open spec fn fetch_nand_answers(&self, val: i64, order: MemOrder, old: i64) -> bool {
        call_ensures(AtomicI64::fetch_nand, (self, val, order.native()), old)
    }

    #[inline(always)]
    fn fetch_nand(&self, val: i64, order: MemOrder) -> i64 {
        AtomicI64::fetch_nand(self, val, order.to_std())
    }
}

impl fetch::Or for AtomicI64 {
    type Value = i64;

    open spec fn fetch_or_answers(&self, val: i64, order: MemOrder, old: i64) -> bool {
        call_ensures(AtomicI64::fetch_or, (self, val, order.native()), old)
    }

    #[inline(always)]
    fn fetch_or(&self, val: i64, order: MemOrder) -> i64 {
        AtomicI64::fetch_or(self, val, order.to_std())
    }
}

impl fetch::Xor for AtomicI64 {
    type Value = i64;

    open spec fn fetch_xor_answers(&self, val: i64, order: MemOrder, old: i64) -> bool {
        call_ensures(AtomicI64::fetch_xor, (self, val, order.native()), old)
    }

    #[inline(always)]
    fn fetch_xor(&self, val: i64, order: MemOrder) -> i64 {
        AtomicI64::fetch_xor(self, val, order.to_std())
    }
}

impl NumOps for AtomicI64 {
}

impl fetch::Add for AtomicI64 {
    type Value = i64;

    open spec fn fetch_add_answers(&self, val: i64, order: MemOrder, old: i64) -> bool {
        call_ensures(AtomicI64::fetch_add, (self, val, order.native()), old)
    }

    #[inline(always)]
    fn fetch_add(&self, val: i64, order: MemOrder) -> i64 {
        AtomicI64::fetch_add(self, val, order.to_std())
    }
}

impl fetch::Sub for AtomicI64 {
    type Value = i64;

    open spec fn fetch_sub_answers(&self, val: i64, order: MemOrder, old: i64) -> bool {
        call_ensures(AtomicI64::fetch_sub, (self, val, order.native()), old)
    }

    #[inline(always)]
    fn fetch_sub(&self, val: i64, order: MemOrder) -> i64 {
        AtomicI64::fetch_sub(self, val, order.to_std())
    }
}

impl fetch::Max for AtomicI64 {
    type Value = i64;

    open spec fn fetch_max_answers(&self, val: i64, order: MemOrder, old: i64) -> bool {
        call_ensures(AtomicI64::fetch_max, (self, val, order.native()), old)
    }

    #[inline(always)]
    fn fetch_max(&self, val: i64, order: MemOrder) -> i64 {
        AtomicI64::fetch_max(self, val, order.to_std())
    }
}

impl fetch::Min for AtomicI64 {
    type Value = i64;

    open spec fn fetch_min_answers(&self, val: i64, order: MemOrder, old: i64) -> bool {
        call_ensures(AtomicI64::fetch_min, (self, val, order.native()), old)
    }

    #[inline(always)]
    fn fetch_min(&self, val: i64, order: MemOrder) -> i64 {
        AtomicI64::fetch_min(self, val, order.to_std())
    }
}

/// `AtomicIsize::into_inner` hands out the value of a cell that nobody else
/// can reach any more. Nothing is claimed of that value.
#[verifier::external_body]
fn isize_into_inner(cell: AtomicIsize) -> isize {
    cell.into_inner()
}

/// `AtomicIsize::fetch_update` reads the cell with `fetch_order` and offers
/// each value that it sees to `f`, until `f` declines one or the value that
/// `f` gave for one has been stored in its place with `set_order`. It
/// answers `Ok` with the value that was replaced, or `Err` with the value
/// that `f` declined. It does not accept a `fetch_order` that releases.
#[verifier::external_body]
fn isize_fetch_update<F: FnMut(isize) -> Option<isize>>(
    cell: &AtomicIsize,
    set_order: Ordering,
    fetch_order: Ordering,
    f: F,
) -> (r: Result<isize, isize>)
    requires
        fetch_order != Ordering::Release,
        fetch_order != Ordering::AcqRel,
        takes_any(f),
    ensures
        update_outcome(f, r),
{
    cell.fetch_update(set_order, fetch_order, f)
}

impl TrAtomicData for isize {
    type AtomicCell = AtomicIsize;
}

/// Every request goes to the method of `AtomicIsize` of the same name, with the
/// native ordering of the same name, and is answered as that method answers.
impl TrAtomicCell for AtomicIsize {
    type Value = isize;

    open spec fn new_answers(val: isize, cell: Self) -> bool {
        call_ensures(AtomicIsize::new, (val,), cell)
    }

    closed spec fn into_inner_answers(self, val: isize) -> bool {
        call_ensures(isize_into_inner, (self,), val)
    }

    open spec fn load_answers(&self, order: MemOrder, val: isize) -> bool {
        call_ensures(AtomicIsize::load, (self, order.native()), val)
    }

    open spec fn store_answers(&self, val: isize, order: MemOrder) -> bool {
        call_ensures(AtomicIsize::store, (self, val, order.native()), ())
    }

    open spec fn swap_answers(&self, val: isize, order: MemOrder, old: isize) -> bool {
        call_ensures(AtomicIsize::swap, (self, val, order.native()), old)
    }

    open spec fn compare_exchange_answers(
        &self,
        current: isize,
        desired: isize,
        success: MemOrder,
        failure: MemOrder,
        r: Result<isize, isize>,
    ) -> bool {
        call_ensures(
            AtomicIsize::compare_exchange,
            (self, current, desired, success.native(), failure.native()),
            r,
        )
    }

    open spec fn compare_exchange_weak_answers(
        &self,
        current: isize,
        desired: isize,
        success: MemOrder,
        failure: MemOrder,
        r: Result<isize, isize>,
    ) -> bool {
        call_ensures(
            AtomicIsize::compare_exchange_weak,
            (self, current, desired, success.native(), failure.native()),
            r,
        )
    }

    #[inline(always)]
    fn new(val: isize) -> Self {
        AtomicIsize::new(val)
    }

    #[inline(always)]
    fn into_inner(self) -> isize {
        isize_into_inner(self)
    }

    #[inline(always)]
    fn load(&self, order: MemOrder) -> isize {
        AtomicIsize::load(self, order.to_std())
    }

    #[inline(always)]
    fn store(&self, val: isize, order: MemOrder) {
        AtomicIsize::store(self, val, order.to_std())
    }

    #[inline(always)]
    fn swap(&self, val: isize, order: MemOrder) -> isize {
        AtomicIsize::swap(self, val, order.to_std())
    }

    #[inline(always)]
    fn compare_exchange(
        &self,
        current: isize,
        desired: isize,
        success: MemOrder,
        failure: MemOrder,
    ) -> Result<isize, isize> {
        AtomicIsize::compare_exchange(self, current, desired, success.to_std(), failure.to_std())
    }

    #[inline(always)]
    fn compare_exchange_weak(
        &self,
        current: isize,
        desired: isize,
        success: MemOrder,
        failure: MemOrder,
    ) -> Result<isize, isize> {
        AtomicIsize::compare_exchange_weak(self, current, desired, success.to_std(), failure.to_std())
    }
}

impl fetch::Update for AtomicIsize {
    type Value = isize;

    #[inline(always)]
    fn fetch_update<F>(&self, fetch_order: MemOrder, set_order: MemOrder, f: F) -> (r: Result<
        isize,
        isize,
    >) where F: FnMut(isize) -> Option<isize> {
        isize_fetch_update(self, set_order.to_std(), fetch_order.to_std(), f)
    }
}

impl Bitwise for AtomicIsize {
}

impl fetch::And for AtomicIsize {
    type Value = isize;

    open spec fn fetch_and_answers(&self, val: isize, order: MemOrder, old: isize) -> bool {
        call_ensures(AtomicIsize::fetch_and, (self, val, order.native()), old)
    }

    #[inline(always)]
    fn fetch_and(&self, val: isize, order: MemOrder) -> isize {
        AtomicIsize::fetch_and(self, val, order.to_std())
    }
}

impl fetch::Nand for AtomicIsize {
    type Value = isize;

    open spec fn fetch_nand_answers(&self, val: isize, order: MemOrder, old: isize) -> bool {
        call_ensures(AtomicIsize::fetch_nand, (self, val, order.native()), old)
    }

    #[inline(always)]
    fn fetch_nand(&self, val: isize, order: MemOrder) -> isize {
        AtomicIsize::fetch_nand(self, val, order.to_std())
    }
}

impl fetch::Or for AtomicIsize {
    type Value = isize;

    open spec fn fetch_or_answers(&self, val: isize, order: MemOrder, old: isize) -> bool {
        call_ensures(AtomicIsize::fetch_or, (self, val, order.native()), old)
    }

    #[inline(always)]
    fn fetch_or(&self, val: isize, order: MemOrder) -> isize {
        AtomicIsize::fetch_or(self, val, order.to_std())
    }
}

impl fetch::Xor for AtomicIsize {
    type Value = isize;

    open spec fn fetch_xor_answers(&self, val: isize, order: MemOrder, old: isize) -> bool {
        call_ensures(AtomicIsize::fetch_xor, (self, val, order.native()), old)
    }

    #[inline(always)]
    fn fetch_xor(&self, val: isize, order: MemOrder) -> isize {
        AtomicIsize::fetch_xor(self, val, order.to_std())
    }
}

impl NumOps for AtomicIsize {
}

impl fetch::Add for AtomicIsize {
    type Value = isize;

    open spec fn fetch_add_answers(&self, val: isize, order: MemOrder, old: isize) -> bool {
        call_ensures(AtomicIsize::fetch_add, (self, val, order.native()), old)
    }

    #[inline(always)]
    fn fetch_add(&self, val: isize, order: MemOrder) -> isize {
        AtomicIsize::fetch_add(self, val, order.to_std())
    }
}

impl fetch::Sub for AtomicIsize {
    type Value = isize;

    open spec fn fetch_sub_answers(&self, val: isize, order: MemOrder, old: isize) -> bool {
        call_ensures(AtomicIsize::fetch_sub, (self, val, order.native()), old)
    }

    #[inline(always)]
    fn fetch_sub(&self, val: isize, order: MemOrder) -> isize {
        AtomicIsize::fetch_sub(self, val, order.to_std())
    }
}

impl fetch::Max for AtomicIsize {
    type Value = isize;

    open spec fn fetch_max_answers(&self, val: isize, order: MemOrder, old: isize) -> bool {
        call_ensures(AtomicIsize::fetch_max, (self, val, order.native()), old)
    }

    #[inline(always)]
    fn fetch_max(&self, val: isize, order: MemOrder) -> isize {
        AtomicIsize::fetch_max(self, val, order.to_std())
    }
}

impl fetch::Min for AtomicIsize {
    type Value = isize;

    open spec fn fetch_min_answers(&self, val: isize, order: MemOrder, old: isize) -> bool {
        call_ensures(AtomicIsize::fetch_min, (self, val, order.native()), old)
    }

    #[inline(always)]
    fn fetch_min(&self, val: isize, order: MemOrder) -> isize {
        AtomicIsize::fetch_min(self, val, order.to_std())
    }
}

} // verus!
