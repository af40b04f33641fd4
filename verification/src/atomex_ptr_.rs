use crate::atomic_cell_::{StrictOrderings, TrAtomicCell, TrBorrowCell, TrCmpxchOrderings};
use crate::atomic_flags_::{
    asks, asks_any, attempt_once, lemma_ended_by_success, lemma_lost_by_failure, once_answers,
    once_outcome, spin_outcome, spun, TrAtomicFlags,
};
use crate::cmpxch_result_::CmpxchResult;
use crate::ptr_addr_::{NonNullAddr, PtrAddr};
use crate::slot_ops_::SlotOp;
use core::marker::PhantomData;
use core::ptr::without_provenance;
use core::sync::atomic::AtomicPtr;
use vstd::prelude::*;
use vstd::std_specs::convert::FromSpecImpl;
use vstd::string::StringExecFns;

verus! {

/// A wrapper around the [`AtomicPtr`](core::sync::atomic::AtomicPtr): one
/// slot that is empty, where it holds null, or occupied by the value whose
/// address it holds.
#[derive(Debug)]
#[verifier::reject_recursive_types(T)]
#[verifier::reject_recursive_types(O)]
pub struct AtomexPtr<T, B = AtomicPtr<T>, O = StrictOrderings>(
    B,
    PhantomData<AtomicPtr<T>>,
    PhantomData<O>,
) where B: TrBorrowCell<AtomicPtr<T>>, O: TrCmpxchOrderings;

/// The text that the pointer format `{:p}` gives for a pointer with the
/// address `addr`.
pub uninterp spec fn pointer_text(addr: usize) -> Seq<char>;

/// What a slot that holds `addr` is shown as: `[null]` for an empty one,
/// and else the occupant's address as a pointer is written, in square
/// brackets.
pub open spec fn slot_text(addr: usize) -> Seq<char> {
    if addr == 0 {
        "[null]"@
    } else {
        "["@ + pointer_text(addr) + "]"@
    }
}

/// The formatting of a pointer by `{:p}`, as `format!` does it. The text
/// depends on the address alone.
#[verifier::external_body]
fn format_pointer(addr: usize) -> (s: String)
    ensures
        s@ == pointer_text(addr),
{
    format!("{:p}", without_provenance::<u8>(addr))
}

/// Shows an address as a slot that holds it is shown.
pub fn show_addr<T>(p: PtrAddr<T>) -> (s: String)
    ensures
        s@ == slot_text(p@),
{
    if p.is_null() {
        String::from_str("[null]")
    } else {
        let text = format_pointer(p.addr());
        String::from_str("[").concat(text.as_str()).concat("]")
    }
}

/// The address that an answer to an exchange carries, whichever way it
/// went.
pub open spec fn told<T>(raw: Result<PtrAddr<T>, PtrAddr<T>>) -> PtrAddr<T> {
    match raw {
        Ok(seen) => seen,
        Err(seen) => seen,
    }
}

/// Whether an attempt at the transition `op` on `current` was lost and the
/// cell reported `next`: `op` takes place on `current`, and the cell
/// answered `Err(next)` to the weak exchange, under the orderings `O`, of
/// `current` for what `op` leaves of it.
pub open spec fn slot_lost<T, O: TrCmpxchOrderings>(
    cell: &AtomicPtr<T>,
    op: SlotOp,
    current: PtrAddr<T>,
    next: PtrAddr<T>,
) -> bool {
    &&& op.takes(current@)
    &&& exists|desired: PtrAddr<T>|
        {
            &&& desired@ == op.leaves(current@)
            &&& #[trigger] cell.compare_exchange_weak_answers(
                current,
                desired,
                O::SUCC_ORDERING,
                O::FAIL_ORDERING,
                Err(next),
            )
        }
}

/// Whether `trace` holds the addresses that a run of `op` saw in `cell`, in
/// turn: the first is what the cell answered to a load under the load
/// ordering of `O`, and each further one is what the cell reported when the
/// attempt on the one before it was lost.
pub open spec fn slot_chained<T, O: TrCmpxchOrderings>(
    cell: &AtomicPtr<T>,
    op: SlotOp,
    trace: Seq<PtrAddr<T>>,
) -> bool {
    &&& trace.len() >= 1
    &&& cell.load_answers(O::LOAD_ORDERING, trace[0])
    &&& forall|i: int|
        #![trigger trace[i]]
        0 <= i < trace.len() - 1 ==> slot_lost::<T, O>(cell, op, trace[i], trace[i + 1])
}

/// Whether a run of `op` ended by itself on `held`: either `op` does not
/// take place on `held`, and nothing was asked of the cell for it; or the
/// cell answered `Ok` to the weak exchange of `held` for what `op` leaves of
/// it.
pub open spec fn slot_ended_on<T, O: TrCmpxchOrderings>(
    cell: &AtomicPtr<T>,
    op: SlotOp,
    held: PtrAddr<T>,
) -> bool {
    op.takes(held@) ==> exists|desired: PtrAddr<T>, raw: Result<PtrAddr<T>, PtrAddr<T>>|
        {
            &&& desired@ == op.leaves(held@)
            &&& raw is Ok
            &&& #[trigger] cell.compare_exchange_weak_answers(
                held,
                desired,
                O::SUCC_ORDERING,
                O::FAIL_ORDERING,
                raw,
            )
        }
}

/// Whether `held` is what the cell answered to the one request that settles
/// `op` whatever the cell holds: for a claim of `p` the strong exchange of
/// null for `p`, for a release the swap for null, for a release of `p` alone
/// the strong exchange of `p` for null.
pub open spec fn slot_closed<T, O: TrCmpxchOrderings>(
    cell: &AtomicPtr<T>,
    op: SlotOp,
    held: PtrAddr<T>,
) -> bool {
    match op {
        SlotOp::Claim(p) => exists|
            null: PtrAddr<T>,
            init: PtrAddr<T>,
            raw: Result<PtrAddr<T>, PtrAddr<T>>,
        |
            {
                &&& null.null()
                &&& init@ == p
                &&& #[trigger] cell.compare_exchange_answers(
                    null,
                    init,
                    O::SUCC_ORDERING,
                    O::FAIL_ORDERING,
                    raw,
                )
                &&& held == told(raw)
            },
        SlotOp::Release => exists|null: PtrAddr<T>|
            null.null() && #[trigger] cell.swap_answers(null, O::SUCC_ORDERING, held),
        SlotOp::ReleaseIf(p) => exists|
            wanted: PtrAddr<T>,
            null: PtrAddr<T>,
            raw: Result<PtrAddr<T>, PtrAddr<T>>,
        |
            {
                &&& wanted@ == p
                &&& null.null()
                &&& #[trigger] cell.compare_exchange_answers(
                    wanted,
                    null,
                    O::SUCC_ORDERING,
                    O::FAIL_ORDERING,
                    raw,
                )
                &&& held == told(raw)
            },
    }
}

/// Whether `held` is the address on which a run of the transition `op` on
/// `cell` was decided, where the run makes up to `own_attempts` attempts
/// by itself. There is a chain of addresses that the run saw in the cell,
/// one lost attempt after the other and no more than `own_attempts` of
/// them. Either the run ended by itself on the last of them, which is
/// `held`; or all its own attempts were lost, and `held` is what the cell
/// answered to the request that settles `op`.
pub open spec fn slot_ran<T, O: TrCmpxchOrderings>(
    cell: &AtomicPtr<T>,
    own_attempts: usize,
    op: SlotOp,
    held: PtrAddr<T>,
) -> bool {
    exists|trace: Seq<PtrAddr<T>>|
        {
            &&& #[trigger] slot_chained::<T, O>(cell, op, trace)
            &&& trace.len() <= own_attempts + 1
            &&& {
                ||| held == trace.last() && slot_ended_on::<T, O>(cell, op, held)
                ||| trace.len() == own_attempts + 1 && slot_closed::<T, O>(cell, op, held)
            }
        }
}

/// A chain grows by the address that the cell reported when the attempt on
/// its last address was lost.
proof fn lemma_slot_chain_grows<T, O: TrCmpxchOrderings>(
    cell: &AtomicPtr<T>,
    op: SlotOp,
    trace: Seq<PtrAddr<T>>,
    next: PtrAddr<T>,
)
    requires
        slot_chained::<T, O>(cell, op, trace),
        slot_lost::<T, O>(cell, op, trace.last(), next),
    ensures
        slot_chained::<T, O>(cell, op, trace.push(next)),
{
    let grown = trace.push(next);
    assert(grown[0] == trace[0]);
    assert forall|i: int| #![trigger grown[i]] 0 <= i < grown.len() - 1 implies slot_lost::<T, O>(
        cell,
        op,
        grown[i],
        grown[i + 1],
    ) by {
        if i < trace.len() - 1 {
            assert(grown[i] == trace[i]);
            assert(grown[i + 1] == trace[i + 1]);
        } else {
            assert(grown[i] == trace.last());
            assert(grown[i + 1] == next);
        }
    }
}

/// Runs the transition `op` on `cell` and hands back the address on which
/// it was decided: what the caller is told is `op.answer` of it.
///
/// The run goes on for as long as its attempts are lost to other writers.
/// It counts `usize::MAX` attempts of its own, of which no caller will see
/// the end, before it would settle the transition with one request that
/// cannot be lost.
pub fn slot_run<T, O: TrCmpxchOrderings>(cell: &AtomicPtr<T>, op: SlotOp) -> (held: PtrAddr<T>)
    ensures
        slot_ran::<T, O>(cell, usize::MAX, op, held),
{
    slot_run_counted::<T, O>(cell, usize::MAX, op)
}

/// Runs the transition `op` on `cell` and hands back the address on which
/// it was decided: what the caller is told is `op.answer` of it.
///
/// The cell is read, and then one attempt follows the other, each on the
/// address that the cell was last seen to hold: where `op` does not take
/// place on it the run ends, and else one weak exchange for what `op` leaves
/// of it is attempted, which ends the run if it takes place. The run makes
/// up to `own_attempts` attempts. Should they all be lost to other writers,
/// it settles the transition with one request that cannot be lost: a strong
/// exchange of null for the new occupant, a swap for null, or a strong
/// exchange of the expected occupant for null.
#[verifier::loop_isolation(false)]
pub fn slot_run_counted<T, O: TrCmpxchOrderings>(
    cell: &AtomicPtr<T>,
    own_attempts: usize,
    op: SlotOp,
) -> (held: PtrAddr<T>)
    ensures
        slot_ran::<T, O>(cell, own_attempts, op, held),
{
    proof {
        O::orderings_sound();
    }
    let expect = |x: PtrAddr<T>| -> (b: bool)
        ensures
            b == op.takes(x@),
        { op.accepts(x.addr()) };
    let desire = |x: PtrAddr<T>| -> (n: PtrAddr<T>)
        ensures
            n@ == op.leaves(x@),
        { PtrAddr::new(op.stores(x.addr())) };
    let mut current = TrAtomicCell::load(cell, O::LOAD_ORDERING);
    let mut attempts: usize = 0;
    let ghost mut trace: Seq<PtrAddr<T>> = seq![current];
    while attempts < own_attempts
        invariant
            attempts <= own_attempts,
            slot_chained::<T, O>(cell, op, trace),
            trace.len() == attempts + 1,
            trace.last() == current,
        decreases own_attempts - attempts,
    {
        let once = attempt_once::<PtrAddr<T>, O, _, _>(cell, current, &expect, &desire);
        match once {
            CmpxchResult::Succ(stored) => {
                proof {
                    lemma_ended_by_success::<PtrAddr<T>, O, _, _>(
                        cell,
                        expect,
                        desire,
                        current,
                        stored,
                    );
                    assert(slot_ended_on::<T, O>(cell, op, current));
                }
                return current;
            },
            CmpxchResult::Unexpected(_) => {
                proof {
                    assert(!op.takes(current@));
                    assert(slot_ended_on::<T, O>(cell, op, current));
                }
                return current;
            },
            CmpxchResult::Fail(seen) => {
                proof {
                    lemma_lost_by_failure::<PtrAddr<T>, O, _, _>(
                        cell,
                        expect,
                        desire,
                        current,
                        seen,
                    );
                    assert(slot_lost::<T, O>(cell, op, current, seen));
                    lemma_slot_chain_grows::<T, O>(cell, op, trace, seen);
                    trace = trace.push(seen);
                }
                current = seen;
            },
        }
        attempts += 1;
    }
    let null = PtrAddr::null_mut();
    match op {
        SlotOp::Claim(p) => {
            let raw = TrAtomicCell::compare_exchange(
                cell,
                null,
                PtrAddr::new(p),
                O::SUCC_ORDERING,
                O::FAIL_ORDERING,
            );
            let held = match raw {
                Ok(seen) => seen,
                Err(seen) => seen,
            };
            assert(held == told(raw));
            assert(slot_closed::<T, O>(cell, op, held));
            held
        },
        SlotOp::Release => {
            let held = TrAtomicCell::swap(cell, null, O::SUCC_ORDERING);
            assert(slot_closed::<T, O>(cell, op, held));
            held
        },
        SlotOp::ReleaseIf(p) => {
            let raw = TrAtomicCell::compare_exchange(
                cell,
                PtrAddr::new(p),
                null,
                O::SUCC_ORDERING,
                O::FAIL_ORDERING,
            );
            let held = match raw {
                Ok(seen) => seen,
                Err(seen) => seen,
            };
            assert(held == told(raw));
            assert(slot_closed::<T, O>(cell, op, held));
            held
        },
    }
}

/// What a release told its caller, in addresses.
pub open spec fn released<T>(r: Result<NonNullAddr<T>, PtrAddr<T>>) -> Result<usize, usize> {
    match r {
        Ok(owner) => Ok(owner@),
        Err(seen) => Err(seen@),
    }
}

/// What a claim told its caller, in addresses.
pub open spec fn claimed<T>(r: Result<PtrAddr<T>, NonNullAddr<T>>) -> Result<usize, usize> {
    match r {
        Ok(stored) => Ok(stored@),
        Err(owner) => Err(owner@),
    }
}

impl<T, B, O> AtomexPtr<T, B, O> where B: TrBorrowCell<AtomicPtr<T>>, O: TrCmpxchOrderings {
    /// What gives this wrapper its cell.
    pub closed spec fn backing(self) -> B {
        self.0
    }

    /// The wrapper that gets its cell from `a`.
    pub closed spec fn around(a: B) -> Self {
        AtomexPtr(a, PhantomData, PhantomData)
    }

    pub fn new(a: B) -> (slot: Self)
        ensures
            slot == Self::around(a),
            slot.backing() == a,
    {
        AtomexPtr(a, PhantomData, PhantomData)
    }

    /// The address that the slot holds now, null or not: what the cell
    /// answers to a load under the load ordering of `O`.
    #[inline(always)]
    pub fn pointer(&self) -> (p: PtrAddr<T>)
        ensures
            self.backing().lent().load_answers(O::LOAD_ORDERING, p),
    {
        let p = TrAtomicFlags::<PtrAddr<T>, O>::value(self);
        assert(TrAtomicFlags::<PtrAddr<T>, O>::cell(self) == self.backing().lent());
        p
    }

    /// The occupant of the slot now, if it has one: none where `pointer`
    /// answers null, and else the address that it answers.
    #[inline(always)]
    pub fn load(&self) -> (r: Option<NonNullAddr<T>>)
        ensures
            exists|seen: PtrAddr<T>|
                {
                    &&& self.backing().lent().load_answers(O::LOAD_ORDERING, seen)
                    &&& r is None <==> seen.null()
                    &&& r matches Some(owner) ==> owner@ == seen@
                },
    {
        let seen = self.pointer();
        let r = NonNullAddr::new(seen);
        assert(self.backing().lent().load_answers(O::LOAD_ORDERING, seen));
        r
    }

    /// One weak exchange of `current` for `desired`. `Ok` carries the
    /// address now stored, `Err` the one that the slot reported; the
    /// exchange may fail even though the slot holds `current`.
    #[inline(always)]
    pub fn compare_exchange_weak(&self, current: PtrAddr<T>, desired: PtrAddr<T>) -> (r: Result<
        PtrAddr<T>,
        PtrAddr<T>,
    >)
        ensures
            exists|raw: Result<PtrAddr<T>, PtrAddr<T>>|
                {
                    &&& self.backing().lent().compare_exchange_weak_answers(
                        current,
                        desired,
                        O::SUCC_ORDERING,
                        O::FAIL_ORDERING,
                        raw,
                    )
                    &&& r == CmpxchResult::attempted(desired, raw).narrowed()
                },
            r matches Ok(stored) ==> stored == desired,
    {
        proof {
            O::orderings_sound();
        }
        let raw = TrAtomicCell::compare_exchange_weak(
            self.0.borrow_cell(),
            current,
            desired,
            O::SUCC_ORDERING,
            O::FAIL_ORDERING,
        );
        assert(self.backing().lent().compare_exchange_weak_answers(
            current,
            desired,
            O::SUCC_ORDERING,
            O::FAIL_ORDERING,
            raw,
        ));
        match raw {
            Ok(_) => Ok(desired),
            Err(seen) => Err(seen),
        }
    }

    #[inline(always)]
    pub fn try_once_compare_exchange_weak<
        FnExpect: Fn(PtrAddr<T>) -> bool,
        FnDesire: Fn(PtrAddr<T>) -> PtrAddr<T>,
    >(&self, current: PtrAddr<T>, expect: FnExpect, desire: FnDesire) -> (r: CmpxchResult<
        PtrAddr<T>,
    >)
        requires
            asks(expect, desire, current),
        ensures
            once_outcome(expect, desire, current, r),
            once_answers::<PtrAddr<T>, O, FnExpect, FnDesire>(
                self.backing().lent(),
                expect,
                desire,
                current,
                r,
            ),
    {
        let r = TrAtomicFlags::<PtrAddr<T>, O>::try_once_compare_exchange_weak(
            self,
            current,
            expect,
            desire,
        );
        assert(TrAtomicFlags::<PtrAddr<T>, O>::cell(self) == self.backing().lent());
        r
    }

    #[inline(always)]
    pub fn try_spin_compare_exchange_weak<
        FnExpect: Fn(PtrAddr<T>) -> bool,
        FnDesire: Fn(PtrAddr<T>) -> PtrAddr<T>,
    >(&self, expect: FnExpect, desire: FnDesire) -> (r: CmpxchResult<PtrAddr<T>>)
        requires
            asks_any(expect, desire),
        ensures
            spin_outcome(expect, desire, r),
            spun::<PtrAddr<T>, O, FnExpect, FnDesire>(self.backing().lent(), &expect, &desire, r),
    {
        let r = TrAtomicFlags::<PtrAddr<T>, O>::try_spin_compare_exchange_weak(
            self,
            expect,
            desire,
        );
        assert(TrAtomicFlags::<PtrAddr<T>, O>::cell(self) == self.backing().lent());
        r
    }

    /// Try to update the atomic pointer from non-null to null.
    ///
    /// `Ok` carries the occupant that was set free. `Err` carries null: the
    /// slot was empty already. The answer is that of a release on the
    /// address on which a run on the slot's cell was decided.
    pub fn try_reset(&self) -> (r: Result<NonNullAddr<T>, PtrAddr<T>>)
        ensures
            exists|held: PtrAddr<T>|
                {
                    &&& #[trigger] slot_ran::<T, O>(
                        self.backing().lent(),
                        usize::MAX,
                        SlotOp::Release,
                        held,
                    )
                    &&& released(r) == SlotOp::Release.answers(held@)
                },
            SlotOp::Release.may_answer(released(r)),
            r matches Err(seen) ==> seen.null(),
    {
        let op = SlotOp::Release;
        let held = slot_run::<T, O>(self.0.borrow_cell(), op);
        let r = match op.answer(held.addr()) {
            Ok(_) => Ok(NonNullAddr::new_unchecked(held)),
            Err(_) => Err(held),
        };
        assert(slot_ran::<T, O>(self.backing().lent(), usize::MAX, op, held));
        assert(released(r) == op.answers(held@));
        r
    }

    /// Try to update the atomic pointer from non-null to null, after checking
    /// the the equality between the stored pointer and the argument pointer.
    ///
    /// `Ok` carries `p`, which was set free. `Err` carries what the slot
    /// held instead, null or another occupant, which stays where it is. The
    /// answer is that of a release of `p` alone on the address on which a
    /// run on the slot's cell was decided.
    pub fn try_spin_compare_and_reset(&self, p: NonNullAddr<T>) -> (r: Result<
        NonNullAddr<T>,
        PtrAddr<T>,
    >)
        ensures
            exists|held: PtrAddr<T>|
                {
                    &&& #[trigger] slot_ran::<T, O>(
                        self.backing().lent(),
                        usize::MAX,
                        SlotOp::ReleaseIf(p@),
                        held,
                    )
                    &&& released(r) == SlotOp::ReleaseIf(p@).answers(held@)
                },
            SlotOp::ReleaseIf(p@).may_answer(released(r)),
            r matches Ok(owner) ==> owner@ == p@,
            r matches Err(seen) ==> seen@ != p@,
    {
        let op = SlotOp::ReleaseIf(p.addr());
        let held = slot_run::<T, O>(self.0.borrow_cell(), op);
        let r = match op.answer(held.addr()) {
            Ok(_) => Ok(NonNullAddr::new_unchecked(held)),
            Err(_) => Err(held),
        };
        assert(slot_ran::<T, O>(self.backing().lent(), usize::MAX, op, held));
        assert(released(r) == op.answers(held@));
        r
    }

    /// Try to update the atomic pointer from null to non-null.
    ///
    /// `Ok` carries the address now stored, that of `init`. `Err` carries
    /// the occupant that holds the slot already, which stays where it is.
    /// The answer is that of a claim for `init` on the address on which a
    /// run on the slot's cell was decided.
    pub fn try_spin_init(&self, init: NonNullAddr<T>) -> (r: Result<PtrAddr<T>, NonNullAddr<T>>)
        ensures
            exists|held: PtrAddr<T>|
                {
                    &&& #[trigger] slot_ran::<T, O>(
                        self.backing().lent(),
                        usize::MAX,
                        SlotOp::Claim(init@),
                        held,
                    )
                    &&& claimed(r) == SlotOp::Claim(init@).answers(held@)
                },
            SlotOp::Claim(init@).may_answer(claimed(r)),
            r matches Ok(stored) ==> stored@ == init@,
    {
        let op = SlotOp::Claim(init.addr());
        let held = slot_run::<T, O>(self.0.borrow_cell(), op);
        let r = match op.answer(held.addr()) {
            Ok(_) => Ok(init.as_ptr()),
            Err(_) => Err(NonNullAddr::new_unchecked(held)),
        };
        assert(slot_ran::<T, O>(self.backing().lent(), usize::MAX, op, held));
        assert(claimed(r) == op.answers(held@));
        r
    }

    /// Shows what the slot holds now: the text of the address that the
    /// cell answers to a load under the load ordering of `O`.
    pub fn to_text(&self) -> (s: String)
        ensures
            exists|p: PtrAddr<T>|
                {
                    &&& #[trigger] self.backing().lent().load_answers(O::LOAD_ORDERING, p)
                    &&& s@ == slot_text(p@)
                },
    {
        let p = self.pointer();
        let s = show_addr(p);
        assert(self.backing().lent().load_answers(O::LOAD_ORDERING, p) && s@ == slot_text(p@));
        s
    }

    /// Stores `p` in the slot, whatever it holds, with what a plain write
    /// can have of the ordering that `O` gives to an exchange that takes
    /// place: that ordering itself, or what is left of it without acquiring.
    pub fn store(&self, p: PtrAddr<T>)
        ensures
            self.backing().lent().store_answers(p, O::SUCC_ORDERING.store_part()),
    {
        TrAtomicCell::store(self.0.borrow_cell(), p, O::SUCC_ORDERING.for_store())
    }
}

impl<'a, T> From<&'a mut AtomicPtr<T>> for AtomexPtr<T, &'a mut AtomicPtr<T>, StrictOrderings> {
    fn from(value: &'a mut AtomicPtr<T>) -> (slot: Self) {
        let slot = AtomexPtr(value, PhantomData, PhantomData);
        assert(slot == Self::around(value));
        slot
    }
}

impl<'a, T> FromSpecImpl<&'a mut AtomicPtr<T>> for AtomexPtr<T, &'a mut AtomicPtr<T>, StrictOrderings> {
    open spec fn obeys_from_spec() -> bool {
        true
    }

    open spec fn from_spec(value: &'a mut AtomicPtr<T>) -> Self {
        Self::around(value)
    }
}

impl<T, B, O> AsRef<AtomicPtr<T>> for AtomexPtr<T, B, O> where
    B: TrBorrowCell<AtomicPtr<T>>,
    O: TrCmpxchOrderings,
 {
    fn as_ref(&self) -> (cell: &AtomicPtr<T>)
        ensures
            cell == self.backing().lent(),
    {
        self.0.borrow_cell()
    }
}

pub type AtomexPtrMut<'a, T, O> = AtomexPtr<T, &'a mut AtomicPtr<T>, O>;

pub type AtomexPtrOwned<T, O> = AtomexPtr<T, AtomicPtr<T>, O>;

impl<T, B, O> TrAtomicFlags<PtrAddr<T>, O> for AtomexPtr<T, B, O> where
    B: TrBorrowCell<AtomicPtr<T>>,
    O: TrCmpxchOrderings,
 {
    open spec fn cell(&self) -> &AtomicPtr<T> {
        self.backing().lent()
    }

    fn as_cell(&self) -> (cell: &AtomicPtr<T>) {
        let cell = self.0.borrow_cell();
        assert(self.cell() == self.backing().lent());
        cell
    }
}

} // verus!
