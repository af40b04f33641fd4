//! Building blocks for lock-free code on top of compare-and-exchange.
//!
//! The native atomic cells of every width come under one interface
//! ([`TrAtomicCell`], and [`fetch`] for what only some of them can do), with
//! the strength of each access chosen by a policy type
//! ([`TrCmpxchOrderings`]). On top of that stands one way to update a cell
//! optimistically: a predicate says whether the value seen may be replaced, a
//! transform says by what, and the answer ([`CmpxchResult`]) keeps apart an
//! update that took place, one that lost against another writer, and one that
//! the predicate turned down ([`TrAtomicFlags`]). A pointer slot
//! ([`AtomexPtr`]) is claimed, released and conditionally released in just
//! that way; [`SlotOp`] says what each of these transitions does to a slot,
//! and what follows for a slot that many callers share.
//!
//! What a shared cell holds at any moment depends on the other threads.
//! The contracts here therefore speak of what a call answers for the value
//! that it saw, whatever that was, and never of what the cell held before
//! or holds after. They do say which requests a call made of the cell:
//! each answer is one that the cell may give to a load, an exchange or an
//! addition with just these values and orderings, and a run of attempts
//! reports the chain of values that the cell answered to it, one lost
//! attempt after the other.
mod atomex_ptr_;
mod atomic_cell_;
mod atomic_count_;
mod atomic_flags_;
mod cell_bool_;
mod cell_ptr_;
mod cells_signed_;
mod cells_unsigned_;
mod cmpxch_result_;
pub mod fetch;
mod mem_order_;
mod ptr_addr_;
mod slot_ops_;

pub use atomex_ptr_::{
    claimed, pointer_text, released, show_addr, slot_chained, slot_closed, slot_ended_on,
    slot_lost, slot_ran, slot_run, slot_run_counted, slot_text, told, AtomexPtr, AtomexPtrMut, AtomexPtrOwned,
};
pub use atomic_cell_::{
    cmpxch_orderings_sound, Bitwise, LocksOrderings, NumOps, PhantomAtomicPtr, StrictOrderings,
    TrAtomicCell, TrAtomicData, TrBorrowCell, TrCmpxchOrderings,
};
pub use atomic_count_::{is_step, AtomicCount, AtomicCountMut, AtomicCountOwned};
pub use atomic_flags_::{
    asks, asks_any, attempt_once, chained, ended, ended_on, hand_over, handed_over,
    lemma_chain_grows, lemma_ended_by_success, lemma_lost_by_failure,
    lemma_rejected_is_unexpected, lemma_spin_ends_settled, lost, once_answers, once_outcome,
    propose, proposes, ran, settled, spin_exchange, spin_exchange_counted, spin_exchanged,
    spin_outcome, spun, AtomicFlags, TrAtomicFlags,
};
pub use cell_ptr_::{addresses, ptr_exchange_answers, ptr_weak_exchange_answers};
pub use cmpxch_result_::CmpxchResult;
pub use mem_order_::MemOrder;
pub use ptr_addr_::{NonNullAddr, PtrAddr};
pub use slot_ops_::{
    held_after, held_before, lemma_claim_release_round_trip, lemma_one_owner_between_releases,
    lemma_refused_leaves_untouched, lemma_release_if_frees_expected,
    lemma_release_if_spares_others, SlotOp,
};
