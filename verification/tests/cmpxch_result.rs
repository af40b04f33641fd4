use atomex::CmpxchResult;

#[test]
fn into_inner_hands_out_the_carried_value() {
    assert_eq!(CmpxchResult::Succ(1u8).into_inner(), 1);
    assert_eq!(CmpxchResult::Fail(2u8).into_inner(), 2);
    assert_eq!(CmpxchResult::Unexpected(3u8).into_inner(), 3);
}

#[test]
fn kind_tests_tell_the_three_outcomes_apart() {
    let s = CmpxchResult::Succ(0i32);
    let f = CmpxchResult::Fail(0i32);
    let u = CmpxchResult::Unexpected(0i32);
    assert!(s.is_succ() && !s.is_fail() && !s.is_unexpected());
    assert!(!f.is_succ() && f.is_fail() && !f.is_unexpected());
    assert!(!u.is_succ() && !u.is_fail() && u.is_unexpected());
}

#[test]
fn succ_keeps_only_a_success() {
    assert_eq!(CmpxchResult::Succ(7u64).succ(), Some(7));
    assert_eq!(CmpxchResult::Fail(7u64).succ(), None);
    assert_eq!(CmpxchResult::Unexpected(7u64).succ(), None);
}

#[test]
fn fail_keeps_only_a_lost_exchange() {
    assert_eq!(CmpxchResult::Succ(7u64).fail(), None);
    assert_eq!(CmpxchResult::Fail(7u64).fail(), Some(7));
    assert_eq!(CmpxchResult::Unexpected(7u64).fail(), None);
}

#[test]
fn unexpected_keeps_only_a_rejection() {
    assert_eq!(CmpxchResult::Succ(7u64).unexpected(), None);
    assert_eq!(CmpxchResult::Fail(7u64).unexpected(), None);
    assert_eq!(CmpxchResult::Unexpected(7u64).unexpected(), Some(7));
}

#[test]
fn narrowing_to_result_merges_fail_and_unexpected() {
    let r: Result<u8, u8> = CmpxchResult::Succ(1u8).into();
    assert_eq!(r, Ok(1));
    let r: Result<u8, u8> = CmpxchResult::Fail(2u8).into();
    assert_eq!(r, Err(2));
    let r: Result<u8, u8> = Result::from(CmpxchResult::Unexpected(3u8));
    assert_eq!(r, Err(3));
}

#[test]
fn from_exchange_carries_the_stored_value_on_success() {
    let r = CmpxchResult::from_exchange(9u32, Ok(4));
    assert!(matches!(r, CmpxchResult::Succ(9)));
    let r = CmpxchResult::from_exchange(9u32, Err(5));
    assert!(matches!(r, CmpxchResult::Fail(5)));
}

#[test]
fn clone_keeps_kind_and_value() {
    let r = CmpxchResult::Fail(String::from("seen"));
    let c = r.clone();
    assert!(c.is_fail());
    assert_eq!(c.into_inner(), "seen");
    assert_eq!(format!("{:?}", r), "Fail(\"seen\")");
}
