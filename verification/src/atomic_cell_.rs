use crate::fetch;
use crate::mem_order_::MemOrder;
use core::marker::PhantomData;
use core::sync::atomic::AtomicPtr;
use vstd::prelude::*;

verus! {

/// A native atomic cell: hardware-backed storage for one primitive value,
/// shared between threads. What a read or an exchange answers depends on
/// what the other threads did. So each method says of its answer only that
/// it is one that this cell may give to this very request, and asks for a
/// strength that the access can have. What a cell may answer to a request
/// is for its impl to say; one that does not say promises nothing.
pub trait TrAtomicCell: Sized {
    /// The underlying primitive value type
    type Value: Copy;

    /// Whether `cell` is what `new` may make of `val`.
    open spec fn new_answers(val: Self::Value, cell: Self) -> bool {
        true
    }

    /// Whether `val` is what `into_inner` may hand out of this cell.
    open spec fn into_inner_answers(self, val: Self::Value) -> bool {
        true
    }

    /// Whether `val` is what a load under `order` may answer.
    open spec fn load_answers(&self, order: MemOrder, val: Self::Value) -> bool {
        true
    }

    /// Whether a store of `val` under `order` is a request that this cell
    /// was made.
    open spec fn store_answers(&self, val: Self::Value, order: MemOrder) -> bool {
        true
    }

    /// Whether `old` is what a swap for `val` under `order` may answer.
    open spec fn swap_answers(&self, val: Self::Value, order: MemOrder, old: Self::Value) -> bool {
        true
    }

    /// Whether `r` is what a strong exchange of `current` for `desired`
    /// under `success` and `failure` may answer.
    open spec fn compare_exchange_answers(
        &self,
        current: Self::Value,
        desired: Self::Value,
        success: MemOrder,
        failure: MemOrder,
        r: Result<Self::Value, Self::Value>,
    ) -> bool {
        true
    }

    /// Whether `r` is what a weak exchange of `current` for `desired` under
    /// `success` and `failure` may answer.
    open spec fn compare_exchange_weak_answers(
        &self,
        current: Self::Value,
        desired: Self::Value,
        success: MemOrder,
        failure: MemOrder,
        r: Result<Self::Value, Self::Value>,
    ) -> bool {
        true
    }

    fn new(val: Self::Value) -> (cell: Self)
        ensures
            Self::new_answers(val, cell),
    ;

    fn into_inner(self) -> (val: Self::Value)
        ensures
            self.into_inner_answers(val),
    ;

    /// Loads a value from the cell.
    fn load(&self, order: MemOrder) -> (val: Self::Value)
        requires
            order.load_allowed(),
        ensures
            self.load_answers(order, val),
    ;

    /// Stores a value into the cell.
    fn store(&self, val: Self::Value, order: MemOrder)
        requires
            order.store_allowed(),
        ensures
            self.store_answers(val, order),
    ;

    /// Stores a value into the cell, returning the previous value.
    fn swap(&self, val: Self::Value, order: MemOrder) -> (old: Self::Value)
        ensures
            self.swap_answers(val, order, old),
    ;

    /// Stores a value into the atomic type if the current value is the same as
    /// the `current` value.
    ///
    /// The return value is a result indicating whether the new value was
    /// written and containing the previous value.
    fn compare_exchange(
        &self,
        current: Self::Value,
        desired: Self::Value,
        success: MemOrder,
        failure: MemOrder,
    ) -> (r: Result<Self::Value, Self::Value>)
        requires
            failure.load_allowed(),
        ensures
            self.compare_exchange_answers(current, desired, success, failure, r),
    ;

    /// Stores a value into the atomic type if the current value is the same as
    /// the `current` value.
    ///
    /// Unlike `compare_exchange`, this function is allowed to spuriously fail
    /// even when the comparison succeeds, which can result in more
    /// efficient code on some platforms. The return value is a result
    /// indicating whether the new value was written and containing the previous
    /// value.
    fn compare_exchange_weak(
        &self,
        current: Self::Value,
        desired: Self::Value,
        success: MemOrder,
        failure: MemOrder,
    ) -> (r: Result<Self::Value, Self::Value>)
        requires
            failure.load_allowed(),
        ensures
            self.compare_exchange_weak_answers(current, desired, success, failure, r),
    ;
}

/// A primitive value that has a native atomic cell.
pub trait TrAtomicData {
    type AtomicCell: TrAtomicCell<Value = Self>;
}

/// The trait for types implementing atomic bitwise operations
pub trait Bitwise: TrAtomicCell + fetch::And<Value = <Self as TrAtomicCell>::Value> + fetch::Nand<
    Value = <Self as TrAtomicCell>::Value,
> + fetch::Or<Value = <Self as TrAtomicCell>::Value> + fetch::Xor<
    Value = <Self as TrAtomicCell>::Value,
> {
}

/// The trait for types implementing atomic numeric operations
pub trait NumOps: TrAtomicCell + fetch::Add<Value = <Self as TrAtomicCell>::Value> + fetch::Sub<
    Value = <Self as TrAtomicCell>::Value,
> + fetch::Update<Value = <Self as TrAtomicCell>::Value> + fetch::Max<
    Value = <Self as TrAtomicCell>::Value,
> + fetch::Min<Value = <Self as TrAtomicCell>::Value> {
}

/// Something that gives shared access to a cell: the cell itself, held by
/// value, or an exclusive borrow of a cell that lives elsewhere.
pub trait TrBorrowCell<C> {
    /// The cell that this gives access to.
    spec fn lent(&self) -> &C;

    fn borrow_cell(&self) -> (cell: &C)
        ensures
            cell == self.lent(),
    ;
}

impl<C: TrAtomicCell> TrBorrowCell<C> for C {
    open spec fn lent(&self) -> &C {
        self
    }

    fn borrow_cell(&self) -> (cell: &C) {
        self
    }
}

impl<'a, C: TrAtomicCell> TrBorrowCell<C> for &'a mut C {
    open spec fn lent(&self) -> &C {
        &**self
    }

    fn borrow_cell(&self) -> (cell: &C) {
        &**self
    }
}

/// Whether three strengths can serve one compare-and-exchange protocol: the
/// two reads, after a lost exchange and before the first one, ask for what a
/// read can have, and a won exchange synchronises at least as much as a lost
/// one.
pub open spec fn cmpxch_orderings_sound(succ: MemOrder, fail: MemOrder, load: MemOrder) -> bool {
    &&& fail.load_allowed()
    &&& load.load_allowed()
    &&& succ.at_least(fail)
}

/// An helper trait to define spinlock ordering used in atomic operation
pub trait TrCmpxchOrderings {
    /// The strength of an exchange that takes place.
    const SUCC_ORDERING: MemOrder;

    /// The strength of the read that an exchange makes when it does not.
    const FAIL_ORDERING: MemOrder;

    /// The strength of a plain read.
    const LOAD_ORDERING: MemOrder;

    proof fn orderings_sound()
        ensures
            cmpxch_orderings_sound(Self::SUCC_ORDERING, Self::FAIL_ORDERING, Self::LOAD_ORDERING),
    ;
}

/// Provide the most strict orderings with cost of higher overhead.
///
/// If you don't know which one to use, this is the best choice.
#[derive(Clone, Copy, Debug, Default)]
pub struct StrictOrderings;

impl TrCmpxchOrderings for StrictOrderings {
    const SUCC_ORDERING: MemOrder = MemOrder::SeqCst;

    const FAIL_ORDERING: MemOrder = MemOrder::SeqCst;

    const LOAD_ORDERING: MemOrder = MemOrder::SeqCst;

    proof fn orderings_sound()
        ensures
            Self::SUCC_ORDERING == MemOrder::SeqCst,
            Self::FAIL_ORDERING == MemOrder::SeqCst,
            Self::LOAD_ORDERING == MemOrder::SeqCst,
    {
    }
}

/// The orderings of a hand-rolled lock: an exchange that takes place
/// acquires, and so does a plain read; an exchange that does not take place
/// synchronises with nothing.
#[derive(Clone, Copy, Debug, Default)]
pub struct LocksOrderings;

impl TrCmpxchOrderings for LocksOrderings {
    const SUCC_ORDERING: MemOrder = MemOrder::Acquire;

    const FAIL_ORDERING: MemOrder = MemOrder::Relaxed;

    const LOAD_ORDERING: MemOrder = MemOrder::Acquire;

    proof fn orderings_sound()
        ensures
            Self::SUCC_ORDERING == MemOrder::Acquire,
            Self::FAIL_ORDERING == MemOrder::Relaxed,
            Self::LOAD_ORDERING == MemOrder::Acquire,
    {
    }
}

pub type PhantomAtomicPtr<T> = PhantomData<AtomicPtr<T>>;

} // verus!
