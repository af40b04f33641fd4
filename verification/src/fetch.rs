//! Fetch and apply operations to the current value, returning the previous
//! value.
use crate::mem_order_::MemOrder;
use vstd::prelude::*;

verus! {

/// Bitwise "and" with the current value.
pub trait And {
    /// The underlying primitive value type
    type Value;

    /// Performs a bitwise "and" operation on the current value and the
    /// argument `val`, and sets the new value to the result.
    ///
    /// Returns the previous value.
    fn fetch_and(&self, val: Self::Value, order: MemOrder) -> (old: Self::Value)
        ensures
            self.fetch_and_answers(val, order, old),
    ;

    /// Whether `old` is what the bitwise "and" with `val` under `order` may answer.
    open spec fn fetch_and_answers(&self, val: Self::Value, order: MemOrder, old: Self::Value) -> bool {
        true
    }
}

/// Bitwise "nand" with the current value.
pub trait Nand {
    /// The underlying primitive value type
    type Value;

    /// Performs a bitwise "nand" operation on the current value and the
    /// argument `val`, and sets the new value to the result.
    ///
    /// Returns the previous value.
    fn fetch_nand(&self, val: Self::Value, order: MemOrder) -> (old: Self::Value)
        ensures
            self.fetch_nand_answers(val, order, old),
    ;

    /// Whether `old` is what the bitwise "nand" with `val` under `order` may answer.
    open spec fn fetch_nand_answers(&self, val: Self::Value, order: MemOrder, old: Self::Value) -> bool {
        true
    }
}

/// Bitwise "or" with the current value.
pub trait Or {
    /// The underlying primitive value type
    type Value;

    /// Performs a bitwise "or" operation on the current value and the
    /// argument `val`, and sets the new value to the result.
    ///
    /// Returns the previous value.
    fn fetch_or(&self, val: Self::Value, order: MemOrder) -> (old: Self::Value)
        ensures
            self.fetch_or_answers(val, order, old),
    ;

    /// Whether `old` is what the bitwise "or" with `val` under `order` may answer.
    open spec fn fetch_or_answers(&self, val: Self::Value, order: MemOrder, old: Self::Value) -> bool {
        true
    }
}

/// Bitwise "xor" with the current value.
pub trait Xor {
    /// The underlying primitive value type
    type Value;

    /// Performs a bitwise "xor" operation on the current value and the
    /// argument `val`, and sets the new value to the result.
    ///
    /// Returns the previous value.
    fn fetch_xor(&self, val: Self::Value, order: MemOrder) -> (old: Self::Value)
        ensures
            self.fetch_xor_answers(val, order, old),
    ;

    /// Whether `old` is what the bitwise "xor" with `val` under `order` may answer.
    open spec fn fetch_xor_answers(&self, val: Self::Value, order: MemOrder, old: Self::Value) -> bool {
        true
    }
}

/// Adds to the current value, returning the previous value.
pub trait Add {
    /// The underlying primitive value type
    type Value;

    /// Adds to the current value, returning the previous value.
    ///
    /// This operation wraps around on overflow.
    fn fetch_add(&self, val: Self::Value, order: MemOrder) -> (old: Self::Value)
        ensures
            self.fetch_add_answers(val, order, old),
    ;

    /// Whether `old` is what the addition of `val` under `order` may answer.
    open spec fn fetch_add_answers(&self, val: Self::Value, order: MemOrder, old: Self::Value) -> bool {
        true
    }
}

/// Subtracts from the current value, returning the previous value.
pub trait Sub {
    /// The underlying primitive value type
    type Value;

    /// Subtracts from the current value, returning the previous value.
    ///
    /// This operation wraps around on overflow.
    fn fetch_sub(&self, val: Self::Value, order: MemOrder) -> (old: Self::Value)
        ensures
            self.fetch_sub_answers(val, order, old),
    ;

    /// Whether `old` is what the subtraction of `val` under `order` may answer.
    open spec fn fetch_sub_answers(&self, val: Self::Value, order: MemOrder, old: Self::Value) -> bool {
        true
    }
}

/// What an update by `f` may answer. `Ok(seen)`: the cell held `seen`, `f`
/// gave a new value for it, and that value was stored in its place.
/// `Err(seen)`: the cell held `seen` and `f` declined it.
pub open spec fn update_outcome<V, F: FnOnce(V) -> Option<V>>(f: F, r: Result<V, V>) -> bool {
    match r {
        Ok(seen) => exists|next: V| call_ensures(f, (seen,), Some(next)),
        Err(seen) => call_ensures(f, (seen,), None::<V>),
    }
}

/// Whether `f` may be called on every value.
pub open spec fn takes_any<V, F: FnOnce(V) -> Option<V>>(f: F) -> bool {
    forall|v: V| call_requires(f, (v,))
}

/// Fetches the value, and applies a function to it that returns an optional new
/// value.
pub trait Update {
    /// The underlying primitive value type
    type Value;

    /// Fetches the value, and applies a function to it that returns an
    /// optional new value. The value is read with `fetch_order` and the new
    /// one written with `set_order`.
    ///
    /// Returns a `Result` of `Ok(previous_value)` if the function returned
    /// `Some(_)`, else `Err(previous_value)`. `Err` therefore always means
    /// that the function declined: an exchange that loses against another
    /// writer is not reported, it is tried again on the value then seen, and
    /// `f` may so be called more than once. A call returns only once an
    /// exchange lands or `f` declines.
    fn fetch_update<F>(&self, fetch_order: MemOrder, set_order: MemOrder, f: F) -> (r: Result<
        Self::Value,
        Self::Value,
    >) where F: FnMut(Self::Value) -> Option<Self::Value>
        requires
            fetch_order.load_allowed(),
            takes_any(f),
        ensures
            update_outcome(f, r),
    ;
}

/// Maximum with the current value.
pub trait Max {
    /// The underlying primitive value type
    type Value;

    /// Finds the maximum of the current value and the argument `val`, and
    /// sets the new value to the result.
    ///
    /// Returns the previous value.
    fn fetch_max(&self, val: Self::Value, order: MemOrder) -> (old: Self::Value)
        ensures
            self.fetch_max_answers(val, order, old),
    ;

    /// Whether `old` is what the maximum with `val` under `order` may answer.
    open spec fn fetch_max_answers(&self, val: Self::Value, order: MemOrder, old: Self::Value) -> bool {
        true
    }
}

/// Minimum with the current value.
pub trait Min {
    /// The underlying primitive value type
    type Value;

    /// Finds the minimum of the current value and the argument `val`, and
    /// sets the new value to the result.
    ///
    /// Returns the previous value.
    fn fetch_min(&self, val: Self::Value, order: MemOrder) -> (old: Self::Value)
        ensures
            self.fetch_min_answers(val, order, old),
    ;

    /// Whether `old` is what the minimum with `val` under `order` may answer.
    open spec fn fetch_min_answers(&self, val: Self::Value, order: MemOrder, old: Self::Value) -> bool {
        true
    }
}

} // verus!
