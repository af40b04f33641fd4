use crate::atomic_cell_::{TrAtomicCell, TrAtomicData, TrBorrowCell};
use crate::fetch;
use crate::mem_order_::MemOrder;
use core::marker::PhantomData;
use vstd::prelude::*;
use vstd::std_specs::convert::FromSpecImpl;

verus! {

/// Whether `v` is the number one.
pub open spec fn is_step<V: Integer>(v: V) -> bool {
    v as int == 1
}

/// `funty::Integral::ONE`, the step value of an integer type: the number
/// one.
#[verifier::external_body]
fn step_of<V: funty::Integral + Integer>() -> (one: V)
    ensures
        is_step(one),
{
    V::ONE
}

/// A counter in an atomic cell of the integer type `V`, held by value or
/// borrowed. It adds and subtracts as the cell does, wrapping around on
/// overflow, and hands back the count from before.
#[derive(Debug)]
#[verifier::reject_recursive_types(V)]
pub struct AtomicCount<V, B = <V as TrAtomicData>::AtomicCell>(
    B,
    PhantomData<<V as TrAtomicData>::AtomicCell>,
) where
    V: TrAtomicData,
    <V as TrAtomicData>::AtomicCell: TrAtomicCell<Value = V> + fetch::Add<Value = V> + fetch::Sub<
        Value = V,
    >,
    B: TrBorrowCell<<V as TrAtomicData>::AtomicCell>,
;

impl<V, B> AtomicCount<V, B> where
    V: TrAtomicData,
    <V as TrAtomicData>::AtomicCell: TrAtomicCell<Value = V> + fetch::Add<Value = V> + fetch::Sub<
        Value = V,
    >,
    B: TrBorrowCell<<V as TrAtomicData>::AtomicCell>,
 {
    /// What gives this counter its cell.
    pub closed spec fn backing(self) -> B {
        self.0
    }

    /// The counter that gets its cell from `cell`.
    pub closed spec fn around(cell: B) -> Self {
        AtomicCount(cell, PhantomData)
    }

    /// Create an instance by moving or borrowing an `TrAtomicCell`
    pub fn new(cell: B) -> (count: Self)
        ensures
            count == Self::around(cell),
            count.backing() == cell,
    {
        AtomicCount(cell, PhantomData)
    }

    /// Adds one, acquiring. Returns the count from before: what the cell
    /// answers to that addition.
    #[inline(always)]
    pub fn inc(&self) -> (old: V) where V: funty::Integral + Integer
        ensures
            exists|one: V|
                is_step(one) && fetch::Add::fetch_add_answers(
                    self.backing().lent(),
                    one,
                    MemOrder::Acquire,
                    old,
                ),
    {
        let one = step_of::<V>();
        let old = self.add(one);
        assert(is_step(one) && fetch::Add::fetch_add_answers(
            self.backing().lent(),
            one,
            MemOrder::Acquire,
            old,
        ));
        old
    }

    /// Adds `val`, acquiring. Returns the count from before: what the cell
    /// answers to that addition.
    pub fn add(&self, val: V) -> (old: V)
        ensures
            fetch::Add::fetch_add_answers(self.backing().lent(), val, MemOrder::Acquire, old),
    {
        fetch::Add::fetch_add(self.0.borrow_cell(), val, MemOrder::Acquire)
    }

    /// Subtracts one, releasing. Returns the count from before: what the
    /// cell answers to that subtraction.
    #[inline(always)]
    pub fn dec(&self) -> (old: V) where V: funty::Integral + Integer
        ensures
            exists|one: V|
                is_step(one) && fetch::Sub::fetch_sub_answers(
                    self.backing().lent(),
                    one,
                    MemOrder::Release,
                    old,
                ),
    {
        let one = step_of::<V>();
        let old = self.sub(one);
        assert(is_step(one) && fetch::Sub::fetch_sub_answers(
            self.backing().lent(),
            one,
            MemOrder::Release,
            old,
        ));
        old
    }

    /// Subtracts `val`, releasing. Returns the count from before: what the
    /// cell answers to that subtraction.
    pub fn sub(&self, val: V) -> (old: V)
        ensures
            fetch::Sub::fetch_sub_answers(self.backing().lent(), val, MemOrder::Release, old),
    {
        fetch::Sub::fetch_sub(self.0.borrow_cell(), val, MemOrder::Release)
    }

    /// The count now, read without synchronising: what the cell answers to
    /// a relaxed load.
    pub fn val(&self) -> (count: V)
        ensures
            self.backing().lent().load_answers(MemOrder::Relaxed, count),
    {
        TrAtomicCell::load(self.0.borrow_cell(), MemOrder::Relaxed)
    }
}

impl<V> AtomicCount<V, <V as TrAtomicData>::AtomicCell> where
    V: TrAtomicData,
    <V as TrAtomicData>::AtomicCell: TrAtomicCell<Value = V> + fetch::Add<Value = V> + fetch::Sub<
        Value = V,
    >,
 {
    pub fn into_inner(self) -> (cell: <V as TrAtomicData>::AtomicCell)
        ensures
            cell == self.backing(),
    {
        self.0
    }
}

impl<V> Default for AtomicCount<V> where
    V: TrAtomicData,
    <V as TrAtomicData>::AtomicCell: TrAtomicCell<Value = V> + fetch::Add<Value = V> + fetch::Sub<
        Value = V,
    > + Default,
 {
    fn default() -> Self {
        Self::new(Default::default())
    }
}

impl<'a, V> From<&'a mut <V as TrAtomicData>::AtomicCell> for AtomicCount<V, &'a mut <V as TrAtomicData>::AtomicCell> where V: TrAtomicData, <V as TrAtomicData>::AtomicCell: TrAtomicCell<Value = V> + fetch::Add<Value = V> + fetch::Sub<Value = V> {
    fn from(value: &'a mut <V as TrAtomicData>::AtomicCell) -> (count: Self) {
        let count = AtomicCount(value, PhantomData);
        assert(count == Self::around(value));
        count
    }
}

impl<'a, V> FromSpecImpl<&'a mut <V as TrAtomicData>::AtomicCell> for AtomicCount<V, &'a mut <V as TrAtomicData>::AtomicCell> where V: TrAtomicData, <V as TrAtomicData>::AtomicCell: TrAtomicCell<Value = V> + fetch::Add<Value = V> + fetch::Sub<Value = V> {
    open spec fn obeys_from_spec() -> bool {
        true
    }

    open spec fn from_spec(value: &'a mut <V as TrAtomicData>::AtomicCell) -> Self {
        Self::around(value)
    }
}

pub type AtomicCountOwned<V> = AtomicCount<V, <V as TrAtomicData>::AtomicCell>;

pub type AtomicCountMut<'a, V> = AtomicCount<V, &'a mut <V as TrAtomicData>::AtomicCell>;

} // verus!
