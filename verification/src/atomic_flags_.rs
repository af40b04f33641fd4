use crate::atomic_cell_::{
    PhantomAtomicPtr, StrictOrderings, TrAtomicCell, TrAtomicData, TrBorrowCell,
    TrCmpxchOrderings,
};
use crate::cmpxch_result_::CmpxchResult;
use crate::fetch;
use core::marker::PhantomData;
use vstd::prelude::*;

verus! {

/// Whether `p` is what the pair of `expect` and `desire` may propose for the
/// value `seen`: nothing where `expect` turns `seen` down, and else what
/// `desire` makes of it.
pub open spec fn proposes<T, E: Fn(T) -> bool, D: Fn(T) -> T>(
    expect: E,
    desire: D,
    seen: T,
    p: Option<T>,
) -> bool {
    match p {
        Some(desired) => call_ensures(expect, (seen,), true) && call_ensures(
            desire,
            (seen,),
            desired,
        ),
        None => call_ensures(expect, (seen,), false),
    }
}

/// Whether the pair may be asked about `seen`: `expect` takes it, and
/// `desire` takes it if `expect` lets it pass.
pub open spec fn asks<T, E: Fn(T) -> bool, D: Fn(T) -> T>(expect: E, desire: D, seen: T) -> bool {
    &&& call_requires(expect, (seen,))
    &&& call_ensures(expect, (seen,), true) ==> call_requires(desire, (seen,))
}

/// Whether the pair may be asked about every value.
pub open spec fn asks_any<T, E: Fn(T) -> bool, D: Fn(T) -> T>(expect: E, desire: D) -> bool {
    forall|seen: T| asks(expect, desire, seen)
}

/// Whether `r` is what one attempt on the observed value `current` may
/// answer. `Unexpected`: `expect` turned `current` down and nothing was
/// attempted. `Succ`: `expect` let `current` pass and the carried value is
/// what `desire` made of it. `Fail`: `expect` let `current` pass, and the
/// carried value is what the cell reported when the exchange did not take
/// place.
pub open spec fn once_outcome<T, E: Fn(T) -> bool, D: Fn(T) -> T>(
    expect: E,
    desire: D,
    current: T,
    r: CmpxchResult<T>,
) -> bool {
    match r {
        CmpxchResult::Unexpected(seen) => seen == current && proposes(
            expect,
            desire,
            current,
            None,
        ),
        CmpxchResult::Succ(stored) => proposes(expect, desire, current, Some(stored)),
        CmpxchResult::Fail(_) => exists|desired: T| proposes(expect, desire, current, Some(desired)),
    }
}

/// Whether `r` is what a run of attempts, each on the value that the cell was
/// last seen to hold, may end in: the answer of one attempt on some value,
/// and never `Fail`.
pub open spec fn spin_outcome<T, E: Fn(T) -> bool, D: Fn(T) -> T>(
    expect: E,
    desire: D,
    r: CmpxchResult<T>,
) -> bool {
    &&& !(r is Fail)
    &&& exists|seen: T| once_outcome(expect, desire, seen, r)
}

/// Whether `r` is what a run of attempts may report of the value that it
/// ended on: `Ok` with that value and with what was stored in its place,
/// where the exchange took place, `Err` with that value where `expect`
/// turned it down.
pub open spec fn spin_exchanged<T, E: Fn(T) -> bool, D: Fn(T) -> T>(
    expect: E,
    desire: D,
    r: Result<(T, T), T>,
) -> bool {
    match r {
        Ok((seen, stored)) => proposes(expect, desire, seen, Some(stored)),
        Err(seen) => proposes(expect, desire, seen, None),
    }
}

/// Whether `r` is what one attempt on `current` may answer of this very
/// cell. `Unexpected`: `expect` turned `current` down, and the cell was
/// asked nothing. Else `r` classifies an answer `raw` that the cell gave
/// to one weak exchange, under the orderings `O`, of `current` for what
/// `desire` made of it: `Succ` with that value where the exchange took
/// place, `Fail` with the value that the cell reported where it did not.
pub open spec fn once_answers<T, O, E, D>(
    cell: &<T as TrAtomicData>::AtomicCell,
    expect: E,
    desire: D,
    current: T,
    r: CmpxchResult<T>,
) -> bool where
    T: TrAtomicData + Copy,
    <T as TrAtomicData>::AtomicCell: TrAtomicCell<Value = T>,
    O: TrCmpxchOrderings,
    E: Fn(T) -> bool,
    D: Fn(T) -> T,
 {
    match r {
        CmpxchResult::Unexpected(seen) => seen == current && proposes(
            expect,
            desire,
            current,
            None,
        ),
        _ => exists|desired: T, raw: Result<T, T>|
            {
                &&& proposes(expect, desire, current, Some(desired))
                &&& #[trigger] cell.compare_exchange_weak_answers(
                    current,
                    desired,
                    O::SUCC_ORDERING,
                    O::FAIL_ORDERING,
                    raw,
                )
                &&& r == CmpxchResult::attempted(desired, raw)
            },
    }
}

/// Whether an attempt on `current` was lost and the cell reported `next`:
/// `expect` let `current` pass, and the cell answered `Err(next)` to the
/// weak exchange of `current` for what `desire` made of it.
pub open spec fn lost<T, O, E, D>(
    cell: &<T as TrAtomicData>::AtomicCell,
    expect: E,
    desire: D,
    current: T,
    next: T,
) -> bool where
    T: TrAtomicData + Copy,
    <T as TrAtomicData>::AtomicCell: TrAtomicCell<Value = T>,
    O: TrCmpxchOrderings,
    E: Fn(T) -> bool,
    D: Fn(T) -> T,
 {
    exists|desired: T|
        {
            &&& proposes(expect, desire, current, Some(desired))
            &&& #[trigger] cell.compare_exchange_weak_answers(
                current,
                desired,
                O::SUCC_ORDERING,
                O::FAIL_ORDERING,
                Err(next),
            )
        }
}

/// Whether `trace` holds the values that a run saw in `cell`, in turn: the
/// first is what the cell answered to a load under the load ordering of
/// `O`, and each further one is what the cell reported when the attempt on
/// the one before it was lost.
pub open spec fn chained<T, O, E, D>(
    cell: &<T as TrAtomicData>::AtomicCell,
    expect: E,
    desire: D,
    trace: Seq<T>,
) -> bool where
    T: TrAtomicData + Copy,
    <T as TrAtomicData>::AtomicCell: TrAtomicCell<Value = T>,
    O: TrCmpxchOrderings,
    E: Fn(T) -> bool,
    D: Fn(T) -> T,
 {
    &&& trace.len() >= 1
    &&& cell.load_answers(O::LOAD_ORDERING, trace[0])
    &&& forall|i: int|
        #![trigger trace[i]]
        0 <= i < trace.len() - 1 ==> lost::<T, O, E, D>(cell, expect, desire, trace[i], trace[i + 1])
}

/// Whether a run ended by itself on `seen`, with the report `r`: either
/// `expect` turned `seen` down, or the cell answered `Ok` to the weak
/// exchange of `seen` for what `desire` made of it.
pub open spec fn ended_on<T, O, E, D>(
    cell: &<T as TrAtomicData>::AtomicCell,
    expect: E,
    desire: D,
    seen: T,
    r: Result<(T, T), T>,
) -> bool where
    T: TrAtomicData + Copy,
    <T as TrAtomicData>::AtomicCell: TrAtomicCell<Value = T>,
    O: TrCmpxchOrderings,
    E: Fn(T) -> bool,
    D: Fn(T) -> T,
 {
    match r {
        Ok((on, stored)) => {
            &&& on == seen
            &&& proposes(expect, desire, seen, Some(stored))
            &&& exists|raw: Result<T, T>|
                raw is Ok && #[trigger] cell.compare_exchange_weak_answers(
                    seen,
                    stored,
                    O::SUCC_ORDERING,
                    O::FAIL_ORDERING,
                    raw,
                )
        },
        Err(on) => on == seen && proposes(expect, desire, seen, None),
    }
}

/// What a run reports of the value that it ended on, without what was
/// stored.
pub open spec fn ended<T>(r: Result<(T, T), T>) -> Result<T, T> {
    match r {
        Ok((seen, _)) => Ok(seen),
        Err(seen) => Err(seen),
    }
}

/// Whether `q` is what `hand_over` answered when it was called with this
/// cell and this pair.
pub open spec fn handed_over<T, O, E, D>(
    cell: &<T as TrAtomicData>::AtomicCell,
    expect: &E,
    desire: &D,
    q: Result<T, T>,
) -> bool where
    T: TrAtomicData + Copy,
    <T as TrAtomicData>::AtomicCell: TrAtomicCell<Value = T> + fetch::Update<Value = T>,
    O: TrCmpxchOrderings,
    E: Fn(T) -> bool,
    D: Fn(T) -> T,
 {
    call_ensures(hand_over::<T, O, E, D>, (cell, expect, desire), q)
}

/// Whether `r` is what a run on `cell` that makes up to `own_attempts`
/// attempts by itself may report. There is a chain of values that the run
/// saw in the cell, one lost attempt after the other and no more than
/// `own_attempts` of them. Either the run ended by itself on the last of
/// them; or all its own attempts were lost, and it reports what came of
/// handing the pair over to the cell.
pub open spec fn ran<T, O, E, D>(
    cell: &<T as TrAtomicData>::AtomicCell,
    own_attempts: usize,
    expect: &E,
    desire: &D,
    r: Result<(T, T), T>,
) -> bool where
    T: TrAtomicData + Copy,
    <T as TrAtomicData>::AtomicCell: TrAtomicCell<Value = T> + fetch::Update<Value = T>,
    O: TrCmpxchOrderings,
    E: Fn(T) -> bool,
    D: Fn(T) -> T,
 {
    exists|trace: Seq<T>|
        {
            &&& #[trigger] chained::<T, O, E, D>(cell, *expect, *desire, trace)
            &&& trace.len() <= own_attempts + 1
            &&& {
                ||| ended_on::<T, O, E, D>(cell, *expect, *desire, trace.last(), r)
                ||| {
                    &&& trace.len() == own_attempts + 1
                    &&& handed_over::<T, O, E, D>(cell, expect, desire, ended(r))
                    &&& spin_exchanged(*expect, *desire, r)
                }
            }
        }
}

/// What a run that reported `q` tells the caller of `try_spin`: `Succ` with
/// the value stored, or `Unexpected` with the value turned down.
pub open spec fn settled<T>(q: Result<(T, T), T>) -> CmpxchResult<T> {
    match q {
        Ok((_, stored)) => CmpxchResult::Succ(stored),
        Err(seen) => CmpxchResult::Unexpected(seen),
    }
}

/// Whether `r` is what a run on `cell` without end tells its caller: what
/// a run that counts `usize::MAX` attempts of its own reported, as `Succ` or
/// as `Unexpected`.
pub open spec fn spun<T, O, E, D>(
    cell: &<T as TrAtomicData>::AtomicCell,
    expect: &E,
    desire: &D,
    r: CmpxchResult<T>,
) -> bool where
    T: TrAtomicData + Copy,
    <T as TrAtomicData>::AtomicCell: TrAtomicCell<Value = T> + fetch::Update<Value = T>,
    O: TrCmpxchOrderings,
    E: Fn(T) -> bool,
    D: Fn(T) -> T,
 {
    exists|q: Result<(T, T), T>|
        #[trigger] ran::<T, O, E, D>(cell, usize::MAX, expect, desire, q) && r == settled(q)
}

/// An attempt on a value that `expect` always turns down answers
/// `Unexpected` with that value: it ends before any exchange.
pub proof fn lemma_rejected_is_unexpected<T, E: Fn(T) -> bool, D: Fn(T) -> T>(
    expect: E,
    desire: D,
    current: T,
    r: CmpxchResult<T>,
)
    requires
        once_outcome(expect, desire, current, r),
        !call_ensures(expect, (current,), true),
    ensures
        r == CmpxchResult::Unexpected(current),
{
}

/// A run of attempts ends as one attempt may, on one value, and that
/// attempt either made its exchange or was turned down: it is never left
/// at `Fail`.
pub proof fn lemma_spin_ends_settled<T, E: Fn(T) -> bool, D: Fn(T) -> T>(
    expect: E,
    desire: D,
    r: CmpxchResult<T>,
)
    requires
        spin_outcome(expect, desire, r),
    ensures
        r is Succ || r is Unexpected,
        r matches CmpxchResult::Succ(stored) ==> exists|seen: T|
            call_ensures(expect, (seen,), true) && call_ensures(desire, (seen,), stored),
        r matches CmpxchResult::Unexpected(seen) ==> call_ensures(expect, (seen,), false),
{
    let seen = choose|seen: T| once_outcome(expect, desire, seen, r);
    assert(once_outcome(expect, desire, seen, r));
}

/// Asks the pair about one observed value. The cell is not touched: this
/// is the whole of what happens for a value that `expect` turns down.
pub fn propose<T: Copy, E: Fn(T) -> bool, D: Fn(T) -> T>(seen: T, expect: &E, desire: &D) -> (p:
    Option<T>)
    requires
        asks(*expect, *desire, seen),
    ensures
        proposes(*expect, *desire, seen, p),
{
    if expect(seen) {
        Some(desire(seen))
    } else {
        None
    }
}

/// Makes one attempt on `current`, a value read from `cell` before. Where
/// `expect` turns `current` down, the cell is not touched. Else one weak
/// exchange of `current` for what `desire` makes of it is attempted, under
/// the orderings `O`; it may fail even though the cell holds `current`.
pub fn attempt_once<T, O, E, D>(
    cell: &<T as TrAtomicData>::AtomicCell,
    current: T,
    expect: &E,
    desire: &D,
) -> (r: CmpxchResult<T>) where
    T: TrAtomicData + Copy,
    <T as TrAtomicData>::AtomicCell: TrAtomicCell<Value = T>,
    O: TrCmpxchOrderings,
    E: Fn(T) -> bool,
    D: Fn(T) -> T,

    requires
        asks(*expect, *desire, current),
    ensures
        once_outcome(*expect, *desire, current, r),
        once_answers::<T, O, E, D>(cell, *expect, *desire, current, r),
{
    proof {
        O::orderings_sound();
    }
    match propose(current, expect, desire) {
        None => CmpxchResult::Unexpected(current),
        Some(desired) => {
            let raw = cell.compare_exchange_weak(
                current,
                desired,
                O::SUCC_ORDERING,
                O::FAIL_ORDERING,
            );
            assert(cell.compare_exchange_weak_answers(
                current,
                desired,
                O::SUCC_ORDERING,
                O::FAIL_ORDERING,
                raw,
            ));
            CmpxchResult::from_exchange(desired, raw)
        },
    }
}

/// Hands the pair over to the cell's own `fetch_update`, which attempts the
/// update on the value last seen until an exchange takes place or `expect`
/// turns the value down. The cell is read with the stronger of the two
/// orderings that `O` gives to a plain read and to the read of a lost
/// exchange. `Ok(seen)`: the exchange from `seen` took place. `Err(seen)`:
/// `expect` turned `seen` down.
pub fn hand_over<T, O, E, D>(cell: &<T as TrAtomicData>::AtomicCell, expect: &E, desire: &D) -> (q:
    Result<T, T>) where
    T: TrAtomicData + Copy,
    <T as TrAtomicData>::AtomicCell: TrAtomicCell<Value = T> + fetch::Update<Value = T>,
    O: TrCmpxchOrderings,
    E: Fn(T) -> bool,
    D: Fn(T) -> T,

    requires
        asks_any(*expect, *desire),
    ensures
        q matches Ok(seen) ==> exists|desired: T| proposes(*expect, *desire, seen, Some(desired)),
        q matches Err(seen) ==> proposes(*expect, *desire, seen, None),
{
    proof {
        O::orderings_sound();
    }
    let fetch_order = O::LOAD_ORDERING.join_for_read(O::FAIL_ORDERING);
    let f = |seen: T| -> (p: Option<T>)
        ensures
            proposes(*expect, *desire, seen, p),
        {
            propose(seen, expect, desire)
        };
    fetch::Update::fetch_update(cell, fetch_order, O::SUCC_ORDERING, f)
}

/// Reads `cell`, then makes one attempt after the other, each on the value
/// that the cell was last seen to hold, until an exchange takes place or
/// `expect` turns the value down. Reports the value that the run ended on
/// and, where the exchange took place, what was stored.
///
/// The run makes up to `own_attempts` attempts by itself. Should they all be
/// lost to other writers, it leaves the rest to the cell's own
/// `fetch_update`, which goes on in the same way, reading no more weakly than
/// `O` says for a plain read and for the read of a lost exchange; `desire`
/// is then asked once more, for the value that was stored.
pub fn spin_exchange_counted<T, O, E, D>(
    cell: &<T as TrAtomicData>::AtomicCell,
    own_attempts: usize,
    expect: &E,
    desire: &D,
) -> (r: Result<(T, T), T>) where
    T: TrAtomicData + Copy,
    <T as TrAtomicData>::AtomicCell: TrAtomicCell<Value = T> + fetch::Update<Value = T>,
    O: TrCmpxchOrderings,
    E: Fn(T) -> bool,
    D: Fn(T) -> T,

    requires
        asks_any(*expect, *desire),
    ensures
        spin_exchanged(*expect, *desire, r),
        ran::<T, O, E, D>(cell, own_attempts, expect, desire, r),
{
    proof {
        O::orderings_sound();
    }
    let mut current = cell.load(O::LOAD_ORDERING);
    let mut attempts: usize = 0;
    let ghost mut trace: Seq<T> = seq![current];
    while attempts < own_attempts
        invariant
            asks_any(*expect, *desire),
            attempts <= own_attempts,
            chained::<T, O, E, D>(cell, *expect, *desire, trace),
            trace.len() == attempts + 1,
            trace.last() == current,
        decreases own_attempts - attempts,
    {
        assert(asks(*expect, *desire, current));
        let once = attempt_once::<T, O, E, D>(cell, current, expect, desire);
        match once {
            CmpxchResult::Succ(stored) => {
                let r = Ok((current, stored));
                proof {
                    lemma_ended_by_success::<T, O, E, D>(cell, *expect, *desire, current, stored);
                    assert(ended_on::<T, O, E, D>(cell, *expect, *desire, trace.last(), r));
                    assert(chained::<T, O, E, D>(cell, *expect, *desire, trace));
                }
                return r;
            },
            CmpxchResult::Unexpected(seen) => {
                let r = Err(seen);
                proof {
                    assert(ended_on::<T, O, E, D>(cell, *expect, *desire, trace.last(), r));
                    assert(chained::<T, O, E, D>(cell, *expect, *desire, trace));
                }
                return r;
            },
            CmpxchResult::Fail(seen) => {
                proof {
                    lemma_lost_by_failure::<T, O, E, D>(cell, *expect, *desire, current, seen);
                    lemma_chain_grows::<T, O, E, D>(cell, *expect, *desire, trace, seen);
                    trace = trace.push(seen);
                }
                current = seen;
            },
        }
        attempts += 1;
    }
    let q = hand_over::<T, O, E, D>(cell, expect, desire);
    let r = match q {
        Ok(seen) => {
            assert(asks(*expect, *desire, seen));
            Ok((seen, desire(seen)))
        },
        Err(seen) => Err(seen),
    };
    proof {
        assert(ended(r) == q);
        assert(handed_over::<T, O, E, D>(cell, expect, desire, ended(r)));
        assert(chained::<T, O, E, D>(cell, *expect, *desire, trace));
    }
    r
}

/// An attempt that answered `Succ` made its exchange: the cell answered
/// `Ok` to the weak exchange of `current` for `stored`.
pub proof fn lemma_ended_by_success<T, O, E, D>(
    cell: &<T as TrAtomicData>::AtomicCell,
    expect: E,
    desire: D,
    current: T,
    stored: T,
) where
    T: TrAtomicData + Copy,
    <T as TrAtomicData>::AtomicCell: TrAtomicCell<Value = T>,
    O: TrCmpxchOrderings,
    E: Fn(T) -> bool,
    D: Fn(T) -> T,

    requires
        once_answers::<T, O, E, D>(cell, expect, desire, current, CmpxchResult::Succ(stored)),
    ensures
        ended_on::<T, O, E, D>(cell, expect, desire, current, Ok((current, stored))),
{
    let (desired, raw) = choose|desired: T, raw: Result<T, T>|
        {
            &&& proposes(expect, desire, current, Some(desired))
            &&& #[trigger] cell.compare_exchange_weak_answers(
                current,
                desired,
                O::SUCC_ORDERING,
                O::FAIL_ORDERING,
                raw,
            )
            &&& CmpxchResult::Succ(stored) == CmpxchResult::attempted(desired, raw)
        };
    assert(raw is Ok && desired == stored);
    assert(cell.compare_exchange_weak_answers(
        current,
        stored,
        O::SUCC_ORDERING,
        O::FAIL_ORDERING,
        raw,
    ));
}

/// An attempt that answered `Fail` was lost: the cell reported the carried
/// value when it did not make the exchange.
pub proof fn lemma_lost_by_failure<T, O, E, D>(
    cell: &<T as TrAtomicData>::AtomicCell,
    expect: E,
    desire: D,
    current: T,
    seen: T,
) where
    T: TrAtomicData + Copy,
    <T as TrAtomicData>::AtomicCell: TrAtomicCell<Value = T>,
    O: TrCmpxchOrderings,
    E: Fn(T) -> bool,
    D: Fn(T) -> T,

    requires
        once_answers::<T, O, E, D>(cell, expect, desire, current, CmpxchResult::Fail(seen)),
    ensures
        lost::<T, O, E, D>(cell, expect, desire, current, seen),
{
    let (desired, raw) = choose|desired: T, raw: Result<T, T>|
        {
            &&& proposes(expect, desire, current, Some(desired))
            &&& #[trigger] cell.compare_exchange_weak_answers(
                current,
                desired,
                O::SUCC_ORDERING,
                O::FAIL_ORDERING,
                raw,
            )
            &&& CmpxchResult::Fail(seen) == CmpxchResult::attempted(desired, raw)
        };
    assert(raw == Err::<T, T>(seen));
    assert(cell.compare_exchange_weak_answers(
        current,
        desired,
        O::SUCC_ORDERING,
        O::FAIL_ORDERING,
        Err(seen),
    ));
}

/// A chain grows by the value that the cell reported when the attempt on
/// its last value was lost.
pub proof fn lemma_chain_grows<T, O, E, D>(
    cell: &<T as TrAtomicData>::AtomicCell,
    expect: E,
    desire: D,
    trace: Seq<T>,
    next: T,
) where
    T: TrAtomicData + Copy,
    <T as TrAtomicData>::AtomicCell: TrAtomicCell<Value = T>,
    O: TrCmpxchOrderings,
    E: Fn(T) -> bool,
    D: Fn(T) -> T,

    requires
        chained::<T, O, E, D>(cell, expect, desire, trace),
        lost::<T, O, E, D>(cell, expect, desire, trace.last(), next),
    ensures
        chained::<T, O, E, D>(cell, expect, desire, trace.push(next)),
{
    let grown = trace.push(next);
    assert(grown[0] == trace[0]);
    assert forall|i: int| #![trigger grown[i]] 0 <= i < grown.len() - 1 implies lost::<T, O, E, D>(
        cell,
        expect,
        desire,
        grown[i],
        grown[i + 1],
    ) by {
        if i < trace.len() - 1 {
            assert(grown[i] == trace[i]);
            assert(grown[i + 1] == trace[i + 1]);
        } else {
            assert(grown[i] == trace.last());
            assert(grown[i + 1] == next);
        }
    }
}

/// Reads `cell`, then makes one attempt after the other, each on the value
/// that the cell was last seen to hold, until an exchange takes place or
/// `expect` turns the value down. Reports the value that the run ended on
/// and, where the exchange took place, what was stored.
///
/// The run goes on for as long as its attempts are lost to other writers.
/// It counts `usize::MAX` attempts of its own, of which no caller will see
/// the end, before it would leave the rest to the cell.
pub fn spin_exchange<T, O, E, D>(cell: &<T as TrAtomicData>::AtomicCell, expect: &E, desire: &D) -> (r:
    Result<(T, T), T>) where
    T: TrAtomicData + Copy,
    <T as TrAtomicData>::AtomicCell: TrAtomicCell<Value = T> + fetch::Update<Value = T>,
    O: TrCmpxchOrderings,
    E: Fn(T) -> bool,
    D: Fn(T) -> T,

    requires
        asks_any(*expect, *desire),
    ensures
        spin_exchanged(*expect, *desire, r),
        ran::<T, O, E, D>(cell, usize::MAX, expect, desire, r),
{
    spin_exchange_counted::<T, O, E, D>(cell, usize::MAX, expect, desire)
}

/// A wrapper of an atomic cell that updates it optimistically, under the
/// orderings `O`.
pub trait TrAtomicFlags<T, O = StrictOrderings> where
    T: TrAtomicData + Copy,
    <T as TrAtomicData>::AtomicCell: TrAtomicCell<Value = T> + fetch::Update<Value = T>,
    O: TrCmpxchOrderings,
 {
    /// The cell that this wrapper stands in front of.
    spec fn cell(&self) -> &<T as TrAtomicData>::AtomicCell;

    /// The cell that this wrapper stands in front of.
    fn as_cell(&self) -> (cell: &<T as TrAtomicData>::AtomicCell)
        ensures
            cell == self.cell(),
    ;

    /// The value that the cell holds now: what the cell answers to a load
    /// under the load ordering of `O`.
    fn value(&self) -> (val: T)
        ensures
            self.cell().load_answers(O::LOAD_ORDERING, val),
    {
        proof {
            O::orderings_sound();
        }
        self.as_cell().load(O::LOAD_ORDERING)
    }

    /// One strong exchange of `current` for `desired`: it takes place
    /// exactly if the cell holds `current`, and never fails without cause.
    /// `Ok` carries the value now stored, `Err` the one that the cell held
    /// instead.
    fn compare_exchange(&self, current: T, desired: T) -> (r: Result<T, T>)
        ensures
            exists|raw: Result<T, T>|
                {
                    &&& self.cell().compare_exchange_answers(
                        current,
                        desired,
                        O::SUCC_ORDERING,
                        O::FAIL_ORDERING,
                        raw,
                    )
                    &&& r == CmpxchResult::attempted(desired, raw).narrowed()
                },
            r matches Ok(stored) ==> stored == desired,
    {
        proof {
            O::orderings_sound();
        }
        let raw = self.as_cell().compare_exchange(
            current,
            desired,
            O::SUCC_ORDERING,
            O::FAIL_ORDERING,
        );
        match raw {
            Ok(_) => Ok(desired),
            Err(seen) => Err(seen),
        }
    }

    /// Reads the cell, then attempts the update on the value last seen until
    /// an exchange takes place or `expect` turns the value down. The answer
    /// is never `Fail`. Under contention without end the call does not
    /// return.
    fn try_spin_compare_exchange_weak<FnExpect, FnDesire>(
        &self,
        expect: FnExpect,
        desire: FnDesire,
    ) -> (r: CmpxchResult<T>) where FnExpect: Fn(T) -> bool, FnDesire: Fn(T) -> T
        requires
            asks_any(expect, desire),
        ensures
            spin_outcome(expect, desire, r),
            spun::<T, O, FnExpect, FnDesire>(self.cell(), &expect, &desire, r),
    {
        let q = spin_exchange::<T, O, FnExpect, FnDesire>(self.as_cell(), &expect, &desire);
        assert(ran::<T, O, FnExpect, FnDesire>(self.cell(), usize::MAX, &expect, &desire, q));
        match q {
            Ok((seen, stored)) => {
                assert(once_outcome(expect, desire, seen, CmpxchResult::Succ(stored)));
                CmpxchResult::Succ(stored)
            },
            Err(seen) => {
                assert(once_outcome(expect, desire, seen, CmpxchResult::Unexpected(seen)));
                CmpxchResult::Unexpected(seen)
            },
        }
    }

    /// Makes one attempt on `current`, a value read from the cell before.
    /// Where `expect` turns `current` down, the cell is not touched. Else
    /// one weak exchange of `current` for what `desire` makes of it is
    /// attempted; it may fail even though the cell holds `current`.
    fn try_once_compare_exchange_weak<FnExpect, FnDesire>(
        &self,
        current: T,
        expect: FnExpect,
        desire: FnDesire,
    ) -> (r: CmpxchResult<T>) where FnExpect: Fn(T) -> bool, FnDesire: Fn(T) -> T
        requires
            asks(expect, desire, current),
        ensures
            once_outcome(expect, desire, current, r),
            once_answers::<T, O, FnExpect, FnDesire>(self.cell(), expect, desire, current, r),
    {
        attempt_once::<T, O, FnExpect, FnDesire>(self.as_cell(), current, &expect, &desire)
    }
}

/// A wrapper of the atomic cell of a primitive value `T`, held by value or
/// borrowed, that reads and updates it under the orderings `O`.
#[derive(Debug)]
#[verifier::reject_recursive_types(T)]
#[verifier::reject_recursive_types(O)]
pub struct AtomicFlags<T, B = <T as TrAtomicData>::AtomicCell, O = StrictOrderings>(
    B,
    PhantomData<T>,
    PhantomAtomicPtr<O>,
) where
    T: TrAtomicData + Copy,
    <T as TrAtomicData>::AtomicCell: TrAtomicCell<Value = T> + fetch::Update<Value = T>,
    B: TrBorrowCell<<T as TrAtomicData>::AtomicCell>,
    O: TrCmpxchOrderings,
;

impl<T, B, O> AtomicFlags<T, B, O> where
    T: TrAtomicData + Copy,
    <T as TrAtomicData>::AtomicCell: TrAtomicCell<Value = T> + fetch::Update<Value = T>,
    B: TrBorrowCell<<T as TrAtomicData>::AtomicCell>,
    O: TrCmpxchOrderings,
 {
    /// What gives this wrapper its cell.
    pub closed spec fn backing(self) -> B {
        self.0
    }

    pub fn new(cell: B) -> (flags: Self)
        ensures
            flags.backing() == cell,
    {
        AtomicFlags(cell, PhantomData, PhantomData)
    }

    #[inline(always)]
    pub fn value(&self) -> (val: T)
        ensures
            self.backing().lent().load_answers(O::LOAD_ORDERING, val),
    {
        let val = TrAtomicFlags::<T, O>::value(self);
        assert(TrAtomicFlags::<T, O>::cell(self) == self.backing().lent());
        val
    }

    #[inline(always)]
    pub fn try_once_compare_exchange_weak<FnExpect: Fn(T) -> bool, FnDesire: Fn(T) -> T>(
        &self,
        current: T,
        expect: FnExpect,
        desire: FnDesire,
    ) -> (r: CmpxchResult<T>)
        requires
            asks(expect, desire, current),
        ensures
            once_outcome(expect, desire, current, r),
            once_answers::<T, O, FnExpect, FnDesire>(
                self.backing().lent(),
                expect,
                desire,
                current,
                r,
            ),
    {
        let r = TrAtomicFlags::<T, O>::try_once_compare_exchange_weak(self, current, expect, desire);
        assert(TrAtomicFlags::<T, O>::cell(self) == self.backing().lent());
        r
    }

    #[inline(always)]
    pub fn try_spin_compare_exchange_weak<FnExpect: Fn(T) -> bool, FnDesire: Fn(T) -> T>(
        &self,
        expect: FnExpect,
        desire: FnDesire,
    ) -> (r: CmpxchResult<T>)
        requires
            asks_any(expect, desire),
        ensures
            spin_outcome(expect, desire, r),
            spun::<T, O, FnExpect, FnDesire>(self.backing().lent(), &expect, &desire, r),
    {
        let r = TrAtomicFlags::<T, O>::try_spin_compare_exchange_weak(self, expect, desire);
        assert(TrAtomicFlags::<T, O>::cell(self) == self.backing().lent());
        r
    }
}

impl<T, B, O> TrAtomicFlags<T, O> for AtomicFlags<T, B, O> where
    T: TrAtomicData + Copy,
    <T as TrAtomicData>::AtomicCell: TrAtomicCell<Value = T> + fetch::Update<Value = T>,
    B: TrBorrowCell<<T as TrAtomicData>::AtomicCell>,
    O: TrCmpxchOrderings,
 {
    open spec fn cell(&self) -> &<T as TrAtomicData>::AtomicCell {
        self.backing().lent()
    }

    fn as_cell(&self) -> (cell: &<T as TrAtomicData>::AtomicCell) {
        let cell = self.0.borrow_cell();
        assert(self.cell() == self.backing().lent());
        cell
    }
}

impl<T, B, O> AsRef<<T as TrAtomicData>::AtomicCell> for AtomicFlags<T, B, O> where
    T: TrAtomicData + Copy,
    <T as TrAtomicData>::AtomicCell: TrAtomicCell<Value = T> + fetch::Update<Value = T>,
    B: TrBorrowCell<<T as TrAtomicData>::AtomicCell>,
    O: TrCmpxchOrderings,
 {
    fn as_ref(&self) -> (cell: &<T as TrAtomicData>::AtomicCell)
        ensures
            cell == self.backing().lent(),
    {
        self.0.borrow_cell()
    }
}

} // verus!
