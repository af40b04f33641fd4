use core::sync::atomic::Ordering;
use vstd::prelude::*;

verus! {

/// The strength of the memory synchronisation that one atomic access asks
/// for. The variants are those of the native atomic ordering, under the same
/// names.
#[derive(Clone, Copy, Debug, PartialEq, Eq, Structural)]
pub enum MemOrder {
    Relaxed,
    Release,
    Acquire,
    AcqRel,
    SeqCst,
}

impl MemOrder {
    /// Whether an access of this strength acquires: later accesses of the
    /// thread cannot move before it.
    pub open spec fn acquires(self) -> bool {
        self == MemOrder::Acquire || self == MemOrder::AcqRel || self == MemOrder::SeqCst
    }

    /// Whether an access of this strength releases: earlier accesses of the
    /// thread cannot move behind it.
    pub open spec fn releases(self) -> bool {
        self == MemOrder::Release || self == MemOrder::AcqRel || self == MemOrder::SeqCst
    }

    /// Whether a plain read may ask for this strength. A read has nothing to
    /// release, and the native cells turn such a request down.
    pub open spec fn load_allowed(self) -> bool {
        self != MemOrder::Release && self != MemOrder::AcqRel
    }

    /// Whether a plain write may ask for this strength. A write has nothing
    /// to acquire, and the native cells turn such a request down.
    pub open spec fn store_allowed(self) -> bool {
        self != MemOrder::Acquire && self != MemOrder::AcqRel
    }

    /// Whether this strength gives every guarantee that `other` gives.
    pub open spec fn at_least(self, other: MemOrder) -> bool {
        &&& other.acquires() ==> self.acquires()
        &&& other.releases() ==> self.releases()
        &&& other == MemOrder::SeqCst ==> self == MemOrder::SeqCst
    }

    /// The stronger of two strengths that a read may ask for. Such strengths
    /// form a chain, from `Relaxed` over `Acquire` to `SeqCst`.
    pub open spec fn read_join(self, other: MemOrder) -> MemOrder {
        if self == MemOrder::SeqCst || other == MemOrder::SeqCst {
            MemOrder::SeqCst
        } else if self == MemOrder::Acquire || other == MemOrder::Acquire {
            MemOrder::Acquire
        } else {
            MemOrder::Relaxed
        }
    }

    /// What a plain write can have of this strength: all of it but what
    /// acquires.
    pub open spec fn store_part(self) -> MemOrder {
        match self {
            MemOrder::Acquire => MemOrder::Relaxed,
            MemOrder::AcqRel => MemOrder::Release,
            _ => self,
        }
    }

    /// The native ordering of the same name.
    pub open spec fn native(self) -> Ordering {
        match self {
            MemOrder::Relaxed => Ordering::Relaxed,
            MemOrder::Release => Ordering::Release,
            MemOrder::Acquire => Ordering::Acquire,
            MemOrder::AcqRel => Ordering::AcqRel,
            MemOrder::SeqCst => Ordering::SeqCst,
        }
    }

    pub fn is_load_allowed(self) -> (b: bool)
        ensures
            b == self.load_allowed(),
    {
        match self {
            MemOrder::Release => false,
            MemOrder::AcqRel => false,
            _ => true,
        }
    }

    pub fn is_store_allowed(self) -> (b: bool)
        ensures
            b == self.store_allowed(),
    {
        match self {
            MemOrder::Acquire => false,
            MemOrder::AcqRel => false,
            _ => true,
        }
    }

    /// What a plain write can have of this strength: the strength itself
    /// where a write may ask for it, and else what is left of it without
    /// acquiring.
    pub fn for_store(self) -> (o: MemOrder)
        ensures
            o == self.store_part(),
            o.store_allowed(),
            self.store_allowed() ==> o == self,
            self.at_least(o),
    {
        match self {
            MemOrder::Acquire => MemOrder::Relaxed,
            MemOrder::AcqRel => MemOrder::Release,
            _ => self,
        }
    }

    /// The least strength that a read may ask for and that is at least as
    /// strong as both `self` and `other`.
    pub fn join_for_read(self, other: MemOrder) -> (j: MemOrder)
        requires
            self.load_allowed(),
            other.load_allowed(),
        ensures
            j == self.read_join(other),
            j.load_allowed(),
            j.at_least(self),
            j.at_least(other),
            j == self || j == other,
    {
        match (self, other) {
            (MemOrder::SeqCst, _) => MemOrder::SeqCst,
            (_, MemOrder::SeqCst) => MemOrder::SeqCst,
            (MemOrder::Acquire, _) => MemOrder::Acquire,
            (_, MemOrder::Acquire) => MemOrder::Acquire,
            _ => MemOrder::Relaxed,
        }
    }

    /// The native ordering of the same name.
    pub fn to_std(self) -> (o: Ordering)
        ensures
            o == self.native(),
    {
        match self {
            MemOrder::Relaxed => Ordering::Relaxed,
            MemOrder::Release => Ordering::Release,
            MemOrder::Acquire => Ordering::Acquire,
            MemOrder::AcqRel => Ordering::AcqRel,
            MemOrder::SeqCst => Ordering::SeqCst,
        }
    }
}

} // verus!
