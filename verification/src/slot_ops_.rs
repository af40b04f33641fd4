use vstd::prelude::*;

verus! {

/// One ownership transition of a pointer slot, as it acts on the slot at the
/// single moment at which it takes effect. A slot is described by the address
/// that it holds: null, `0`, for an empty slot, and the address of the
/// occupant for an occupied one.
#[derive(Clone, Copy, Debug)]
pub enum SlotOp {
    /// Occupy the slot with the given address if it is empty.
    Claim(usize),
    /// Empty the slot if it is occupied, whoever occupies it.
    Release,
    /// Empty the slot if the given address occupies it.
    ReleaseIf(usize),
}

impl SlotOp {
    /// Whether the transition names only non-null occupants.
    pub open spec fn wf(self) -> bool {
        match self {
            SlotOp::Claim(p) => p != 0,
            SlotOp::Release => true,
            SlotOp::ReleaseIf(p) => p != 0,
        }
    }

    /// Whether the transition takes place on a slot that holds `held`.
    pub open spec fn takes(self, held: usize) -> bool {
        match self {
            SlotOp::Claim(_) => held == 0,
            SlotOp::Release => held != 0,
            SlotOp::ReleaseIf(p) => held == p,
        }
    }

    /// What a slot that held `held` holds after the transition.
    pub open spec fn leaves(self, held: usize) -> usize {
        if self.takes(held) {
            match self {
                SlotOp::Claim(p) => p,
                SlotOp::Release => 0,
                SlotOp::ReleaseIf(_) => 0,
            }
        } else {
            held
        }
    }

    /// What the caller is told of a slot that held `held`: `Ok` where the
    /// transition took place, with the new occupant for a claim and the one
    /// set free for a release; `Err` with what the slot held where it did
    /// not.
    pub open spec fn answers(self, held: usize) -> Result<usize, usize> {
        if self.takes(held) {
            match self {
                SlotOp::Claim(p) => Ok(p),
                SlotOp::Release => Ok(held),
                SlotOp::ReleaseIf(_) => Ok(held),
            }
        } else {
            Err(held)
        }
    }

    /// Whether `answer` is what the transition may tell its caller, of
    /// whatever the slot held.
    pub open spec fn may_answer(self, answer: Result<usize, usize>) -> bool {
        exists|held: usize| self.answers(held) == answer
    }

    /// Whether the transition takes place on a slot that holds `held`.
    pub fn accepts(self, held: usize) -> (b: bool)
        ensures
            b == self.takes(held),
    {
        match self {
            SlotOp::Claim(_) => held == 0,
            SlotOp::Release => held != 0,
            SlotOp::ReleaseIf(p) => held == p,
        }
    }

    /// What the transition makes of a slot that holds `held`.
    pub fn stores(self, held: usize) -> (left: usize)
        ensures
            left == self.leaves(held),
    {
        if self.accepts(held) {
            match self {
                SlotOp::Claim(p) => p,
                SlotOp::Release => 0,
                SlotOp::ReleaseIf(_) => 0,
            }
        } else {
            held
        }
    }

    /// What the caller is told of a slot that held `held`.
    pub fn answer(self, held: usize) -> (r: Result<usize, usize>)
        ensures
            r == self.answers(held),
    {
        if self.accepts(held) {
            match self {
                SlotOp::Claim(p) => Ok(p),
                SlotOp::Release => Ok(held),
                SlotOp::ReleaseIf(_) => Ok(held),
            }
        } else {
            Err(held)
        }
    }

    /// Whether the transition occupies a slot that holds `held`.
    pub open spec fn claims(self, held: usize) -> bool {
        self is Claim && self.takes(held)
    }

    /// Whether the transition empties a slot that holds `held`.
    pub open spec fn releases(self, held: usize) -> bool {
        !(self is Claim) && self.takes(held)
    }
}

/// What a slot that started out holding `start` holds after the transitions
/// `ops`, taken one after the other.
pub open spec fn held_after(start: usize, ops: Seq<SlotOp>) -> usize
    decreases ops.len(),
{
    if ops.len() == 0 {
        start
    } else {
        ops.last().leaves(held_after(start, ops.drop_last()))
    }
}

/// What the slot holds just before the transition at position `i` of `ops`.
pub open spec fn held_before(start: usize, ops: Seq<SlotOp>, i: int) -> usize {
    held_after(start, ops.take(i))
}

/// A transition that does not take place leaves the slot as it was, and says
/// so: no release ever empties a slot that another occupant holds.
pub proof fn lemma_refused_leaves_untouched(op: SlotOp, held: usize)
    requires
        !op.takes(held),
    ensures
        op.leaves(held) == held,
        op.answers(held) == Err::<usize, usize>(held),
{
}

/// A conditional release empties the slot only where the expected occupant
/// holds it. Where another one does, or none, the slot keeps what it held and
/// the caller is told what that is.
pub proof fn lemma_release_if_spares_others(expected: usize, held: usize)
    requires
        held != expected,
    ensures
        SlotOp::ReleaseIf(expected).leaves(held) == held,
        SlotOp::ReleaseIf(expected).answers(held) == Err::<usize, usize>(held),
{
}

/// A conditional release that reports success set free the expected
/// occupant and no other.
pub proof fn lemma_release_if_frees_expected(expected: usize, held: usize)
    requires
        SlotOp::ReleaseIf(expected).answers(held) is Ok,
    ensures
        held == expected,
        SlotOp::ReleaseIf(expected).answers(held) == Ok::<usize, usize>(expected),
        SlotOp::ReleaseIf(expected).leaves(held) == 0,
{
}

/// Claiming an empty slot for `p` and then releasing it leaves the slot
/// empty again, and the release hands back `p`.
pub proof fn lemma_claim_release_round_trip(p: usize)
    requires
        p != 0,
    ensures
        SlotOp::Claim(p).answers(0) == Ok::<usize, usize>(p),
        SlotOp::Release.answers(SlotOp::Claim(p).leaves(0)) == Ok::<usize, usize>(p),
        SlotOp::Release.leaves(SlotOp::Claim(p).leaves(0)) == 0,
        held_after(0, seq![SlotOp::Claim(p), SlotOp::Release]) == 0,
{
    let ops = seq![SlotOp::Claim(p), SlotOp::Release];
    assert(ops.drop_last() =~= seq![SlotOp::Claim(p)]);
    assert(ops.drop_last().drop_last() =~= Seq::<SlotOp>::empty());
    assert(ops.last() == SlotOp::Release);
    assert(ops.drop_last().last() == SlotOp::Claim(p));
    reveal_with_fuel(held_after, 3);
}

/// As long as no release takes place, an occupied slot stays occupied.
proof fn lemma_stays_occupied(start: usize, ops: Seq<SlotOp>, i: int, j: int)
    requires
        forall|k: int| 0 <= k < ops.len() ==> (#[trigger] ops[k]).wf(),
        0 <= i <= j <= ops.len(),
        held_before(start, ops, i) != 0,
        forall|k: int| i <= k < j ==> !(#[trigger] ops[k]).releases(held_before(start, ops, k)),
    ensures
        held_before(start, ops, j) != 0,
    decreases j - i,
{
    if i < j {
        lemma_stays_occupied(start, ops, i, j - 1);
        let before = held_before(start, ops, j - 1);
        assert(ops.take(j).drop_last() =~= ops.take(j - 1));
        assert(ops.take(j).last() == ops[j - 1]);
        assert(held_before(start, ops, j) == ops[j - 1].leaves(before));
    }
}

/// Mutual exclusion of ownership: in any run of transitions on one slot,
/// taken one after the other, a release takes place between any two claims
/// that do. So of all the claims made between two releases, at most one
/// succeeds.
pub proof fn lemma_one_owner_between_releases(start: usize, ops: Seq<SlotOp>, i: int, j: int)
    requires
        forall|k: int| 0 <= k < ops.len() ==> (#[trigger] ops[k]).wf(),
        0 <= i < j < ops.len(),
        ops[i].claims(held_before(start, ops, i)),
        ops[j].claims(held_before(start, ops, j)),
    ensures
        exists|k: int| i < k < j && (#[trigger] ops[k]).releases(held_before(start, ops, k)),
{
    if forall|k: int| i < k < j ==> !(#[trigger] ops[k]).releases(held_before(start, ops, k)) {
        let before = held_before(start, ops, i);
        assert(ops.take(i + 1).drop_last() =~= ops.take(i));
        assert(ops.take(i + 1).last() == ops[i]);
        assert(held_before(start, ops, i + 1) == ops[i].leaves(before));
        lemma_stays_occupied(start, ops, i + 1, j);
        assert(false);
    }
}

} // verus!
