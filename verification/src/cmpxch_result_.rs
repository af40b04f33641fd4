use vstd::prelude::*;
use vstd::std_specs::convert::FromSpecImpl;

verus! {

/// The outcome of one optimistic update of an atomic cell.
///
/// A bare compare-and-exchange tells a caller only whether the store took
/// place. This type also keeps apart the two reasons for which it may not
/// have: the attempt was made and lost, or the caller's own predicate turned
/// the observed value down before anything was attempted.
#[derive(Debug, Clone)]
pub enum CmpxchResult<T> {
    /// The exchange took place; the carried value is the one now stored.
    Succ(T),
    /// The exchange was attempted and did not take place; the carried value
    /// is the one that the cell was seen to hold.
    Fail(T),
    /// No exchange was attempted, because the predicate turned the carried
    /// value down.
    Unexpected(T),
}

impl<T> CmpxchResult<T> {
    /// The carried value, whatever the outcome.
    pub open spec fn inner(self) -> T {
        match self {
            CmpxchResult::Succ(t) => t,
            CmpxchResult::Fail(t) => t,
            CmpxchResult::Unexpected(t) => t,
        }
    }

    /// The two-way reading of an outcome: `Ok` for an exchange that took
    /// place, `Err` otherwise. It forgets whether an exchange was attempted.
    pub open spec fn narrowed(self) -> Result<T, T> {
        match self {
            CmpxchResult::Succ(t) => Ok(t),
            CmpxchResult::Fail(t) => Err(t),
            CmpxchResult::Unexpected(t) => Err(t),
        }
    }

    /// The outcome of an exchange that was attempted: `desired` was offered
    /// to the cell and `raw` is what the cell answered.
    pub open spec fn attempted(desired: T, raw: Result<T, T>) -> Self {
        match raw {
            Ok(_) => CmpxchResult::Succ(desired),
            Err(seen) => CmpxchResult::Fail(seen),
        }
    }

    /// Classifies the answer of a cell to an exchange that offered `desired`.
    /// An accepted exchange carries the value now stored, a lost one the
    /// value that the cell reported.
    pub fn from_exchange(desired: T, raw: Result<T, T>) -> (r: Self)
        ensures
            r == Self::attempted(desired, raw),
    {
        match raw {
            Ok(_) => CmpxchResult::Succ(desired),
            Err(seen) => CmpxchResult::Fail(seen),
        }
    }

    pub fn into_inner(self) -> (t: T)
        ensures
            t == self.inner(),
    {
        match self {
            CmpxchResult::Succ(t) => t,
            CmpxchResult::Fail(t) => t,
            CmpxchResult::Unexpected(t) => t,
        }
    }

    pub fn is_succ(&self) -> (b: bool)
        ensures
            b == (*self is Succ),
    {
        matches!(self, CmpxchResult::Succ(_))
    }

    pub fn is_fail(&self) -> (b: bool)
        ensures
            b == (*self is Fail),
    {
        matches!(self, CmpxchResult::Fail(_))
    }

    pub fn is_unexpected(&self) -> (b: bool)
        ensures
            b == (*self is Unexpected),
    {
        matches!(self, CmpxchResult::Unexpected(_))
    }

    pub fn succ(self) -> (o: Option<T>)
        ensures
            o == (match self {
                CmpxchResult::Succ(t) => Some(t),
                _ => None,
            }),
    {
        match self {
            CmpxchResult::Succ(t) => Option::Some(t),
            _ => Option::None,
        }
    }

    pub fn fail(self) -> (o: Option<T>)
        ensures
            o == (match self {
                CmpxchResult::Fail(t) => Some(t),
                _ => None,
            }),
    {
        match self {
            CmpxchResult::Fail(t) => Option::Some(t),
            _ => Option::None,
        }
    }

    pub fn unexpected(self) -> (o: Option<T>)
        ensures
            o == (match self {
                CmpxchResult::Unexpected(t) => Some(t),
                _ => None,
            }),
    {
        match self {
            CmpxchResult::Unexpected(t) => Option::Some(t),
            _ => Option::None,
        }
    }
}

/// The narrowing to a plain `Result`. It is lossy on purpose: `Fail` and
/// `Unexpected` both become `Err`.
impl<T> From<CmpxchResult<T>> for Result<T, T> {
    fn from(value: CmpxchResult<T>) -> (r: Self) {
        match value {
            CmpxchResult::Succ(t) => Result::Ok(t),
            CmpxchResult::Fail(t) => Result::Err(t),
            CmpxchResult::Unexpected(t) => Result::Err(t),
        }
    }
}

impl<T> FromSpecImpl<CmpxchResult<T>> for Result<T, T> {
    open spec fn obeys_from_spec() -> bool {
        true
    }

    open spec fn from_spec(value: CmpxchResult<T>) -> Self {
        value.narrowed()
    }
}

} // verus!
