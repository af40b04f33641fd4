use atomex::{LocksOrderings, MemOrder, StrictOrderings, TrCmpxchOrderings};
use std::sync::atomic::Ordering;

const ALL: [MemOrder; 5] =
    [MemOrder::Relaxed, MemOrder::Release, MemOrder::Acquire, MemOrder::AcqRel, MemOrder::SeqCst];

#[test]
fn to_std_keeps_the_name() {
    assert_eq!(MemOrder::Relaxed.to_std(), Ordering::Relaxed);
    assert_eq!(MemOrder::Release.to_std(), Ordering::Release);
    assert_eq!(MemOrder::Acquire.to_std(), Ordering::Acquire);
    assert_eq!(MemOrder::AcqRel.to_std(), Ordering::AcqRel);
    assert_eq!(MemOrder::SeqCst.to_std(), Ordering::SeqCst);
}

#[test]
fn a_read_cannot_release() {
    let allowed: Vec<bool> = ALL.iter().map(|o| o.is_load_allowed()).collect();
    assert_eq!(allowed, vec![true, false, true, false, true]);
}

#[test]
fn a_write_cannot_acquire() {
    let allowed: Vec<bool> = ALL.iter().map(|o| o.is_store_allowed()).collect();
    assert_eq!(allowed, vec![true, true, false, false, true]);
}

#[test]
fn join_for_read_picks_the_stronger() {
    let reads = [MemOrder::Relaxed, MemOrder::Acquire, MemOrder::SeqCst];
    for (i, a) in reads.iter().enumerate() {
        for (j, b) in reads.iter().enumerate() {
            let expected = reads[if i > j { i } else { j }];
            assert_eq!(a.join_for_read(*b), expected);
        }
    }
}

#[test]
fn strict_policy_is_sequentially_consistent_throughout() {
    assert_eq!(<StrictOrderings as TrCmpxchOrderings>::SUCC_ORDERING, MemOrder::SeqCst);
    assert_eq!(<StrictOrderings as TrCmpxchOrderings>::FAIL_ORDERING, MemOrder::SeqCst);
    assert_eq!(<StrictOrderings as TrCmpxchOrderings>::LOAD_ORDERING, MemOrder::SeqCst);
}

#[test]
fn locks_policy_acquires_on_success_and_load_only() {
    assert_eq!(<LocksOrderings as TrCmpxchOrderings>::SUCC_ORDERING, MemOrder::Acquire);
    assert_eq!(<LocksOrderings as TrCmpxchOrderings>::FAIL_ORDERING, MemOrder::Relaxed);
    assert_eq!(<LocksOrderings as TrCmpxchOrderings>::LOAD_ORDERING, MemOrder::Acquire);
}

#[test]
fn shipped_policies_ask_reads_for_what_a_read_can_have() {
    let strict = [
        <StrictOrderings as TrCmpxchOrderings>::FAIL_ORDERING,
        <StrictOrderings as TrCmpxchOrderings>::LOAD_ORDERING,
    ];
    let locks = [
        <LocksOrderings as TrCmpxchOrderings>::FAIL_ORDERING,
        <LocksOrderings as TrCmpxchOrderings>::LOAD_ORDERING,
    ];
    assert!(strict.iter().chain(locks.iter()).all(|o| o.is_load_allowed()));
}

#[test]
fn for_store_keeps_what_a_write_can_have() {
    let parts: Vec<MemOrder> = ALL.iter().map(|o| o.for_store()).collect();
    assert_eq!(
        parts,
        vec![
            MemOrder::Relaxed,
            MemOrder::Release,
            MemOrder::Relaxed,
            MemOrder::Release,
            MemOrder::SeqCst
        ]
    );
    assert!(parts.iter().all(|o| o.is_store_allowed()));
}
