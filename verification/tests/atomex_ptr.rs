use atomex::{AtomexPtr, AtomexPtrMut, AtomexPtrOwned};
use atomex::TrAtomicFlags;
use atomex::{
    slot_run, slot_run_counted, CmpxchResult, LocksOrderings, NonNullAddr, PtrAddr, SlotOp, StrictOrderings,
};
use std::sync::atomic::{AtomicPtr, Ordering};

type Slot = AtomexPtr<u32, AtomicPtr<u32>, StrictOrderings>;

fn empty_slot() -> Slot {
    AtomexPtr::new(AtomicPtr::new(std::ptr::null_mut()))
}

fn occupant(addr: usize) -> NonNullAddr<u32> {
    NonNullAddr::new(PtrAddr::new(addr)).unwrap()
}

fn addr_err(r: Result<NonNullAddr<u32>, PtrAddr<u32>>) -> Result<usize, usize> {
    r.map(|n| n.addr()).map_err(|p| p.addr())
}

fn addr_init(r: Result<PtrAddr<u32>, NonNullAddr<u32>>) -> Result<usize, usize> {
    r.map(|p| p.addr()).map_err(|n| n.addr())
}

#[test]
fn non_null_addr_refuses_null() {
    assert!(NonNullAddr::<u32>::new(PtrAddr::null_mut()).is_none());
    assert!(NonNullAddr::<u32>::new(PtrAddr::new(0)).is_none());
    let n = NonNullAddr::<u32>::new(PtrAddr::new(0x40)).unwrap();
    assert_eq!(n.addr(), 0x40);
    assert_eq!(n.as_ptr(), PtrAddr::new(0x40));
    assert!(!n.as_ptr().is_null());
}

#[test]
fn ptr_addr_compares_by_address() {
    let a = PtrAddr::<u32>::new(0x40);
    assert!(a.same(&PtrAddr::new(0x40)));
    assert!(!a.same(&PtrAddr::new(0x44)));
    assert!(PtrAddr::<u32>::null_mut().is_null());
    assert_eq!(PtrAddr::<u32>::null_mut().addr(), 0);
    let b = a;
    assert_eq!(a.clone(), b);
}

#[test]
fn a_new_slot_shows_what_its_cell_holds() {
    let slot = empty_slot();
    assert!(slot.pointer().is_null());
    assert!(slot.load().is_none());
    let slot: Slot = AtomexPtr::new(AtomicPtr::new(std::ptr::without_provenance_mut(0x80)));
    assert_eq!(slot.pointer().addr(), 0x80);
    assert_eq!(slot.load().map(|n| n.addr()), Some(0x80));
}

#[test]
fn claim_succeeds_on_an_empty_slot_with_the_new_value() {
    let slot = empty_slot();
    assert_eq!(addr_init(slot.try_spin_init(occupant(0x100))), Ok(0x100));
    assert_eq!(slot.pointer().addr(), 0x100);
}

#[test]
fn claim_on_an_occupied_slot_names_the_occupant() {
    let slot = empty_slot();
    assert_eq!(addr_init(slot.try_spin_init(occupant(0x100))), Ok(0x100));
    assert_eq!(addr_init(slot.try_spin_init(occupant(0x200))), Err(0x100));
    assert_eq!(slot.pointer().addr(), 0x100);
}

#[test]
fn of_two_rival_claims_one_wins_and_the_other_learns_the_winner() {
    let slot = empty_slot();
    let a = slot.try_spin_init(occupant(0xa0));
    let b = slot.try_spin_init(occupant(0xb0));
    assert_eq!(addr_init(a), Ok(0xa0));
    assert_eq!(addr_init(b), Err(0xa0));
    let slot = empty_slot();
    let b = slot.try_spin_init(occupant(0xb0));
    let a = slot.try_spin_init(occupant(0xa0));
    assert_eq!(addr_init(b), Ok(0xb0));
    assert_eq!(addr_init(a), Err(0xb0));
}

#[test]
fn release_frees_the_occupant_and_empties_the_slot() {
    let slot = empty_slot();
    slot.store(PtrAddr::new(0x100));
    assert_eq!(addr_err(slot.try_reset()), Ok(0x100));
    assert!(slot.pointer().is_null());
}

#[test]
fn release_of_an_empty_slot_answers_null() {
    let slot = empty_slot();
    assert_eq!(addr_err(slot.try_reset()), Err(0));
    assert!(slot.pointer().is_null());
}

#[test]
fn claim_then_release_restores_the_empty_slot() {
    let slot = empty_slot();
    for addr in [0x10usize, 0x20, usize::MAX] {
        assert_eq!(addr_init(slot.try_spin_init(occupant(addr))), Ok(addr));
        assert_eq!(addr_err(slot.try_reset()), Ok(addr));
        assert!(slot.load().is_none());
    }
}

#[test]
fn only_one_claim_succeeds_between_two_releases() {
    let slot = empty_slot();
    let mut owners = Vec::new();
    for round in 1..=5usize {
        let won: Vec<usize> = (1..=4usize)
            .map(|t| round * 0x100 + t)
            .filter(|a| slot.try_spin_init(occupant(*a)).is_ok())
            .collect();
        assert_eq!(won.len(), 1);
        owners.push(won[0]);
        assert_eq!(addr_err(slot.try_reset()), Ok(won[0]));
        assert_eq!(addr_err(slot.try_reset()), Err(0));
    }
    assert_eq!(owners, vec![0x101, 0x201, 0x301, 0x401, 0x501]);
}

#[test]
fn conditional_release_frees_the_expected_occupant() {
    let slot = empty_slot();
    slot.store(PtrAddr::new(0x100));
    assert_eq!(addr_err(slot.try_spin_compare_and_reset(occupant(0x100))), Ok(0x100));
    assert!(slot.pointer().is_null());
}

#[test]
fn conditional_release_spares_another_occupant() {
    let slot = empty_slot();
    slot.store(PtrAddr::new(0x200));
    assert_eq!(addr_err(slot.try_spin_compare_and_reset(occupant(0x100))), Err(0x200));
    assert_eq!(slot.pointer().addr(), 0x200);
}

#[test]
fn conditional_release_of_an_empty_slot_answers_null() {
    let slot = empty_slot();
    assert_eq!(addr_err(slot.try_spin_compare_and_reset(occupant(0x100))), Err(0));
    assert!(slot.pointer().is_null());
}

#[test]
fn conditional_release_spares_an_occupant_that_moved_in_after_the_read() {
    let slot = empty_slot();
    assert_eq!(addr_init(slot.try_spin_init(occupant(0x100))), Ok(0x100));
    let read = slot.load().unwrap();
    assert_eq!(read.addr(), 0x100);
    assert_eq!(addr_err(slot.try_reset()), Ok(0x100));
    assert_eq!(addr_init(slot.try_spin_init(occupant(0x200))), Ok(0x200));
    assert_eq!(addr_err(slot.try_spin_compare_and_reset(read)), Err(0x200));
    assert_eq!(slot.pointer().addr(), 0x200);
    assert_eq!(addr_err(slot.try_reset()), Ok(0x200));
}

#[test]
fn compare_exchange_weak_answers_the_new_value_on_success() {
    let slot = empty_slot();
    slot.store(PtrAddr::new(0x100));
    let r = slot.compare_exchange_weak(PtrAddr::new(0x300), PtrAddr::new(0x200));
    assert_eq!(r, Err(PtrAddr::new(0x100)));
    let mut r = slot.compare_exchange_weak(PtrAddr::new(0x100), PtrAddr::new(0x200));
    while r.is_err() {
        r = slot.compare_exchange_weak(PtrAddr::new(0x100), PtrAddr::new(0x200));
    }
    assert_eq!(r, Ok(PtrAddr::new(0x200)));
    assert_eq!(slot.pointer().addr(), 0x200);
}

#[test]
fn the_engine_is_open_to_other_transitions() {
    let slot = empty_slot();
    slot.store(PtrAddr::new(0x100));
    let r = slot.try_spin_compare_exchange_weak(|p| !p.is_null(), |p| PtrAddr::new(p.addr() + 8));
    assert!(matches!(r, CmpxchResult::Succ(p) if p.addr() == 0x108));
    let r = slot.try_once_compare_exchange_weak(PtrAddr::new(0x108), |p| p.is_null(), |p| p);
    assert!(matches!(r, CmpxchResult::Unexpected(p) if p.addr() == 0x108));
    assert_eq!(slot.pointer().addr(), 0x108);
    let seen = TrAtomicFlags::<PtrAddr<u32>, StrictOrderings>::value(&slot);
    assert_eq!(seen.addr(), 0x108);
}

#[test]
fn a_slot_can_borrow_its_cell() {
    let mut cell = AtomicPtr::<u32>::new(std::ptr::null_mut());
    {
        let slot: AtomexPtrMut<'_, u32, LocksOrderings> = AtomexPtr::new(&mut cell);
        assert!(slot.try_spin_init(NonNullAddr::new(PtrAddr::new(0x40)).unwrap()).is_ok());
        assert_eq!(slot.as_cell().load(Ordering::SeqCst).addr(), 0x40);
    }
    assert_eq!(cell.load(Ordering::SeqCst).addr(), 0x40);
    let slot: AtomexPtrOwned<u32, LocksOrderings> = AtomexPtr::new(cell);
    assert_eq!(slot.try_reset().map(|n| n.addr()).map_err(|p| p.addr()), Ok(0x40));
}

#[test]
fn a_slot_hands_back_the_pointer_it_was_given() {
    let mut target = 11u32;
    let addr = std::ptr::from_mut(&mut target).expose_provenance();
    let slot = empty_slot();
    assert_eq!(addr_init(slot.try_spin_init(occupant(addr))), Ok(addr));
    let held = slot.as_cell().load(Ordering::SeqCst);
    assert!(std::ptr::eq(held, &target));
    assert_eq!(addr_err(slot.try_reset()), Ok(addr));
}

#[test]
fn a_slot_is_shown_as_its_pointer_in_brackets() {
    let slot = empty_slot();
    assert_eq!(slot.to_text(), "[null]");
    let mut target = 11u32;
    let p = std::ptr::from_mut(&mut target);
    slot.store(PtrAddr::new(p.expose_provenance()));
    assert_eq!(slot.to_text(), format!("[{:p}]", p));
    slot.store(PtrAddr::new(0xbeef));
    assert_eq!(slot.to_text(), "[0xbeef]");
    assert_eq!(atomex::show_addr(PtrAddr::<u32>::new(0x1f)), "[0x1f]");
    assert_eq!(atomex::show_addr(PtrAddr::<u32>::null_mut()), "[null]");
}

#[test]
fn a_slot_can_be_debug_printed() {
    let slot = empty_slot();
    let text = format!("{:?}", slot);
    assert!(text.starts_with("AtomexPtr("));
}

#[test]
fn store_works_under_every_policy() {
    let slot: AtomexPtr<u32, AtomicPtr<u32>, LocksOrderings> =
        AtomexPtr::new(AtomicPtr::new(std::ptr::null_mut()));
    slot.store(PtrAddr::new(0x40));
    assert_eq!(slot.pointer().addr(), 0x40);
    slot.store(PtrAddr::null_mut());
    assert!(slot.pointer().is_null());
    let slot = empty_slot();
    slot.store(PtrAddr::new(0x80));
    assert_eq!(slot.pointer().addr(), 0x80);
}

#[test]
fn a_slot_is_made_from_a_borrowed_cell() {
    let mut cell = AtomicPtr::<u32>::new(std::ptr::null_mut());
    {
        let slot = AtomexPtr::from(&mut cell);
        assert_eq!(addr_init(slot.try_spin_init(occupant(0x40))), Ok(0x40));
    }
    assert_eq!(cell.load(Ordering::SeqCst).addr(), 0x40);
}

#[test]
fn a_slot_gives_its_cell_by_as_ref() {
    let slot = empty_slot();
    slot.store(PtrAddr::new(0x40));
    let cell: &AtomicPtr<u32> = slot.as_ref();
    assert_eq!(cell.load(Ordering::SeqCst).addr(), 0x40);
    assert!(std::ptr::eq(cell, slot.as_cell()));
}

#[test]
fn a_transition_decides_on_the_address_held() {
    let claim = SlotOp::Claim(0x10);
    assert!(claim.accepts(0) && !claim.accepts(0x20) && !claim.accepts(0x10));
    assert_eq!(claim.stores(0), 0x10);
    assert_eq!(claim.stores(0x20), 0x20);
    assert_eq!(claim.answer(0), Ok(0x10));
    assert_eq!(claim.answer(0x20), Err(0x20));
    let release = SlotOp::Release;
    assert!(release.accepts(0x20) && !release.accepts(0));
    assert_eq!(release.stores(0x20), 0);
    assert_eq!(release.stores(0), 0);
    assert_eq!(release.answer(0x20), Ok(0x20));
    assert_eq!(release.answer(0), Err(0));
    let only = SlotOp::ReleaseIf(0x10);
    assert!(only.accepts(0x10) && !only.accepts(0x20) && !only.accepts(0));
    assert_eq!(only.stores(0x10), 0);
    assert_eq!(only.stores(0x20), 0x20);
    assert_eq!(only.answer(0x10), Ok(0x10));
    assert_eq!(only.answer(0x20), Err(0x20));
    assert_eq!(only.answer(0), Err(0));
}

#[test]
fn a_run_hands_back_the_address_it_was_decided_on() {
    let cell = AtomicPtr::<u32>::new(std::ptr::null_mut());
    let held = slot_run::<u32, StrictOrderings>(&cell, SlotOp::Claim(0x10));
    assert_eq!(held.addr(), 0);
    assert_eq!(cell.load(Ordering::SeqCst).addr(), 0x10);
    let held = slot_run::<u32, StrictOrderings>(&cell, SlotOp::Claim(0x20));
    assert_eq!(held.addr(), 0x10);
    assert_eq!(cell.load(Ordering::SeqCst).addr(), 0x10);
    let held = slot_run::<u32, LocksOrderings>(&cell, SlotOp::ReleaseIf(0x20));
    assert_eq!(held.addr(), 0x10);
    assert_eq!(cell.load(Ordering::SeqCst).addr(), 0x10);
    let held = slot_run::<u32, LocksOrderings>(&cell, SlotOp::ReleaseIf(0x10));
    assert_eq!(held.addr(), 0x10);
    assert!(cell.load(Ordering::SeqCst).is_null());
    let held = slot_run::<u32, StrictOrderings>(&cell, SlotOp::Release);
    assert_eq!(held.addr(), 0);
    cell.store(std::ptr::without_provenance_mut(0x30), Ordering::SeqCst);
    let held = slot_run::<u32, StrictOrderings>(&cell, SlotOp::Release);
    assert_eq!(held.addr(), 0x30);
    assert!(cell.load(Ordering::SeqCst).is_null());
}

#[test]
fn a_run_without_attempts_of_its_own_settles_with_one_request() {
    let cell = AtomicPtr::<u32>::new(std::ptr::null_mut());
    let held = slot_run_counted::<u32, StrictOrderings>(&cell, 0, SlotOp::Claim(0x10));
    assert_eq!(SlotOp::Claim(0x10).answer(held.addr()), Ok(0x10));
    assert_eq!(cell.load(Ordering::SeqCst).addr(), 0x10);
    let held = slot_run_counted::<u32, StrictOrderings>(&cell, 0, SlotOp::Claim(0x20));
    assert_eq!(SlotOp::Claim(0x20).answer(held.addr()), Err(0x10));
    assert_eq!(cell.load(Ordering::SeqCst).addr(), 0x10);
    let held = slot_run_counted::<u32, LocksOrderings>(&cell, 0, SlotOp::ReleaseIf(0x20));
    assert_eq!(SlotOp::ReleaseIf(0x20).answer(held.addr()), Err(0x10));
    assert_eq!(cell.load(Ordering::SeqCst).addr(), 0x10);
    let held = slot_run_counted::<u32, LocksOrderings>(&cell, 0, SlotOp::ReleaseIf(0x10));
    assert_eq!(SlotOp::ReleaseIf(0x10).answer(held.addr()), Ok(0x10));
    assert!(cell.load(Ordering::SeqCst).is_null());
    let held = slot_run_counted::<u32, StrictOrderings>(&cell, 0, SlotOp::Release);
    assert_eq!(SlotOp::Release.answer(held.addr()), Err(0));
    assert!(cell.load(Ordering::SeqCst).is_null());
    cell.store(std::ptr::without_provenance_mut(0x30), Ordering::SeqCst);
    let held = slot_run_counted::<u32, StrictOrderings>(&cell, 0, SlotOp::Release);
    assert_eq!(SlotOp::Release.answer(held.addr()), Ok(0x30));
    assert!(cell.load(Ordering::SeqCst).is_null());
}
