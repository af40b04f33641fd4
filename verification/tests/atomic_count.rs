use atomex::{AtomicCount, AtomicCountMut, AtomicCountOwned};
use std::sync::atomic::{AtomicI32, AtomicI64, AtomicU8, AtomicUsize, Ordering};

#[test]
fn counter_on_an_owned_and_on_a_borrowed_cell() {
    let atm = AtomicUsize::new(0usize);
    let cnt = AtomicCount::<usize, AtomicUsize>::new(atm);

    let mut atm = cnt.into_inner();
    let cnt = AtomicCount::<usize, &mut AtomicUsize>::new(&mut atm);

    assert_eq!(cnt.inc(), 0usize);
    assert_eq!(cnt.dec(), 1usize);
    assert_eq!(cnt.val(), 0usize);
}

#[test]
fn inc_and_dec_step_by_one() {
    let cnt: AtomicCountOwned<i32> = AtomicCount::new(AtomicI32::new(41));
    assert_eq!(cnt.inc(), 41);
    assert_eq!(cnt.val(), 42);
    assert_eq!(cnt.dec(), 42);
    assert_eq!(cnt.dec(), 41);
    assert_eq!(cnt.val(), 40);
}

#[test]
fn add_and_sub_hand_back_the_count_from_before() {
    let cnt: AtomicCountOwned<i64> = AtomicCount::new(AtomicI64::new(0));
    assert_eq!(cnt.add(10), 0);
    assert_eq!(cnt.sub(25), 10);
    assert_eq!(cnt.val(), -15);
    assert_eq!(cnt.into_inner().load(Ordering::SeqCst), -15);
}

#[test]
fn the_count_wraps_around() {
    let cnt: AtomicCountOwned<u8> = AtomicCount::new(AtomicU8::new(255));
    assert_eq!(cnt.inc(), 255);
    assert_eq!(cnt.val(), 0);
    assert_eq!(cnt.dec(), 0);
    assert_eq!(cnt.val(), 255);
}

#[test]
fn a_default_counter_starts_at_zero() {
    let cnt = AtomicCount::<usize>::default();
    assert_eq!(cnt.val(), 0);
}

#[test]
fn a_borrowed_counter_counts_in_the_owner_s_cell() {
    let mut cell = AtomicI32::new(5);
    {
        let cnt: AtomicCountMut<'_, i32> = AtomicCount::new(&mut cell);
        assert_eq!(cnt.add(3), 5);
    }
    assert_eq!(cell.load(Ordering::SeqCst), 8);
}

#[test]
fn interleaved_inc_and_dec_of_four_workers_cancel_out() {
    let cnt: AtomicCountOwned<i64> = AtomicCount::new(AtomicI64::new(0));
    let mut calls = 0;
    for round in 0..125 {
        for worker in 0..4 {
            let up_first = (round + worker) % 2 == 0;
            let seen = if up_first { cnt.inc() } else { cnt.dec() };
            assert!((-4..=1000).contains(&seen));
            calls += 1;
        }
        for worker in 0..4 {
            let up_first = (round + worker) % 2 == 0;
            let seen = if up_first { cnt.dec() } else { cnt.inc() };
            assert!((-4..=1000).contains(&seen));
            calls += 1;
        }
    }
    assert_eq!(calls, 1000);
    assert_eq!(cnt.val(), 0);
}

#[test]
fn a_counter_is_made_from_a_borrowed_cell() {
    let mut cell = AtomicI32::new(5);
    {
        let cnt: AtomicCountMut<'_, i32> = AtomicCount::from(&mut cell);
        assert_eq!(cnt.inc(), 5);
        assert!(format!("{:?}", cnt).starts_with("AtomicCount("));
    }
    assert_eq!(cell.load(Ordering::SeqCst), 6);
}
