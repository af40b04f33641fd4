use core::marker::PhantomData;
use vstd::prelude::*;

verus! {

/// The address that a pointer to a `T` holds, null or not. This is the value
/// that a pointer cell stores: two pointers are the same to an exchange
/// exactly if their addresses are.
#[derive(Debug, PartialEq, Eq)]
pub struct PtrAddr<T> {
    addr: usize,
    target: PhantomData<T>,
}

impl<T> Clone for PtrAddr<T> {
    fn clone(&self) -> (r: Self)
        ensures
            r == *self,
    {
        PtrAddr { addr: self.addr, target: PhantomData }
    }
}

impl<T> Copy for PtrAddr<T> {

}

impl<T> View for PtrAddr<T> {
    type V = usize;

    closed spec fn view(&self) -> usize {
        self.addr
    }
}

impl<T> PtrAddr<T> {
    /// Whether this is the address of nothing.
    pub open spec fn null(self) -> bool {
        self@ == 0
    }

    pub fn new(addr: usize) -> (p: Self)
        ensures
            p@ == addr,
    {
        PtrAddr { addr, target: PhantomData }
    }

    /// The null address.
    pub fn null_mut() -> (p: Self)
        ensures
            p@ == 0,
    {
        PtrAddr { addr: 0, target: PhantomData }
    }

    pub fn addr(&self) -> (a: usize)
        ensures
            a == self@,
    {
        self.addr
    }

    pub fn is_null(&self) -> (b: bool)
        ensures
            b == self.null(),
    {
        self.addr == 0
    }

    /// Pointer identity: whether both addresses are the same.
    pub fn same(&self, other: &Self) -> (b: bool)
        ensures
            b == (self@ == other@),
    {
        self.addr == other.addr
    }
}

/// An address that is not null: that of a value which occupies a slot.
#[derive(Debug, PartialEq, Eq)]
pub struct NonNullAddr<T> {
    addr: usize,
    target: PhantomData<T>,
}

impl<T> Clone for NonNullAddr<T> {
    fn clone(&self) -> (r: Self)
        ensures
            r == *self,
    {
        proof {
            use_type_invariant(self);
        }
        NonNullAddr { addr: self.addr, target: PhantomData }
    }
}

impl<T> Copy for NonNullAddr<T> {

}

impl<T> View for NonNullAddr<T> {
    type V = usize;

    closed spec fn view(&self) -> usize {
        self.addr
    }
}

impl<T> NonNullAddr<T> {
    #[verifier::type_invariant]
    spec fn occupied(self) -> bool {
        self.addr != 0
    }

    /// The address as a non-null one, if it is not null.
    pub fn new(p: PtrAddr<T>) -> (r: Option<Self>)
        ensures
            r is None <==> p.null(),
            r matches Some(n) ==> n@ == p@,
    {
        if p.addr == 0 {
            None
        } else {
            Some(NonNullAddr { addr: p.addr, target: PhantomData })
        }
    }

    /// The address as a non-null one, where the caller has seen that it is
    /// not null.
    pub(crate) fn new_unchecked(p: PtrAddr<T>) -> (n: Self)
        requires
            !p.null(),
        ensures
            n@ == p@,
    {
        NonNullAddr { addr: p.addr, target: PhantomData }
    }

    pub fn as_ptr(&self) -> (p: PtrAddr<T>)
        ensures
            p@ == self@,
            !p.null(),
    {
        proof {
            use_type_invariant(self);
        }
        PtrAddr { addr: self.addr, target: PhantomData }
    }

    pub fn addr(&self) -> (a: usize)
        ensures
            a == self@,
            a != 0,
    {
        proof {
            use_type_invariant(self);
        }
        self.addr
    }
}

} // verus!
