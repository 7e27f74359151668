use stack_any::Inline;
use stack_any::StackAny;

#[test]
fn scenario_i32_store_read_mutate() {
    let cell = StackAny::<4>::try_new(5i32);
    assert!(cell.is_some());
    let mut cell = cell.unwrap();

    assert_eq!(cell.downcast_ref::<i32>(), Some(5));
    assert_eq!(cell.downcast_ref::<i64>(), None);

    assert!(cell.downcast_mut::<i32>(13).is_ok());
    assert_eq!(cell.downcast_ref::<i32>(), Some(13));
}

#[test]
fn round_trip_every_type() {
    assert_eq!(StackAny::<1>::try_new(200u8).unwrap().downcast::<u8>(), Some(200));
    assert_eq!(StackAny::<2>::try_new(40_000u16).unwrap().downcast::<u16>(), Some(40_000));
    assert_eq!(
        StackAny::<4>::try_new(3_000_000_000u32).unwrap().downcast::<u32>(),
        Some(3_000_000_000)
    );
    assert_eq!(
        StackAny::<8>::try_new(u64::MAX).unwrap().downcast::<u64>(),
        Some(u64::MAX)
    );
    assert_eq!(StackAny::<4>::try_new(-7i32).unwrap().downcast::<i32>(), Some(-7));
    assert_eq!(
        StackAny::<8>::try_new(i64::MIN).unwrap().downcast::<i64>(),
        Some(i64::MIN)
    );
    assert_eq!(StackAny::<1>::try_new(true).unwrap().downcast::<bool>(), Some(true));
    assert_eq!(StackAny::<1>::try_new(false).unwrap().downcast::<bool>(), Some(false));
}

#[test]
fn round_trip_with_slack_capacity() {
    let cell = StackAny::<16>::try_new(9u8).unwrap();
    assert_eq!(cell.stored_len(), 1);
    assert_eq!(cell.downcast::<u8>(), Some(9));
}

#[test]
fn identity_gate_same_size_types() {
    let cell = StackAny::<4>::try_new(1i32).unwrap();
    assert_eq!(cell.stored_len(), 4);
    assert_eq!(cell.downcast_ref::<u32>(), None);

    let cell = StackAny::<8>::try_new(1u64).unwrap();
    assert_eq!(cell.downcast_ref::<i64>(), None);
    assert_eq!(cell.downcast::<i64>(), None);

    let cell = StackAny::<1>::try_new(1u8).unwrap();
    assert_eq!(cell.downcast_ref::<bool>(), None);
}

#[test]
fn size_gate_rejects_oversize_only() {
    assert!(StackAny::<2>::try_new(5i32).is_none());
    assert!(StackAny::<0>::try_new(5u8).is_none());
    assert!(StackAny::<3>::try_new(5i32).is_none());
    assert!(StackAny::<4>::try_new(5i32).is_some());
    assert!(StackAny::<5>::try_new(5i32).is_some());
}

#[test]
fn fail_fast_constructor() {
    let cell = StackAny::<4>::new(21i32);
    assert_eq!(cell.downcast_ref::<i32>(), Some(21));
    assert_eq!(cell.type_id(), i32::token());
}

#[test]
fn mutate_keeps_identity_and_size() {
    let mut cell = StackAny::<8>::try_new(10i64).unwrap();
    let id_before = cell.type_id();
    let len_before = cell.stored_len();

    assert!(cell.downcast_mut::<i64>(-10).is_ok());

    assert_eq!(cell.type_id(), id_before);
    assert_eq!(cell.stored_len(), len_before);
    assert_eq!(cell.downcast_ref::<i64>(), Some(-10));
}

#[test]
fn mutate_wrong_type_hands_value_back() {
    let mut cell = StackAny::<4>::try_new(5i32).unwrap();
    assert_eq!(cell.downcast_mut::<u32>(9), Err(9));
    assert_eq!(cell.downcast_ref::<i32>(), Some(5));
    assert_eq!(cell.type_id(), i32::token());
}

#[test]
fn downcast_wrong_type_returns_none() {
    let cell = StackAny::<4>::try_new(5i32).unwrap();
    assert_eq!(cell.downcast::<u32>(), None);
}

#[test]
fn fail_fast_accessors() {
    let mut cell = StackAny::<4>::new(5i32);
    assert_eq!(cell.read::<i32>(), 5);
    cell.write(13i32);
    assert_eq!(cell.read::<i32>(), 13);
    assert_eq!(cell.extract::<i32>(), 13);
}

#[test]
fn tokens_are_pairwise_distinct() {
    let tokens = [
        u8::token(),
        u16::token(),
        u32::token(),
        u64::token(),
        i32::token(),
        i64::token(),
        bool::token(),
    ];
    for i in 0..tokens.len() {
        for j in 0..tokens.len() {
            if i != j {
                assert_ne!(tokens[i], tokens[j]);
            }
        }
    }
}

#[test]
fn cells_of_one_capacity_mix_types() {
    let mut cells = [
        StackAny::<8>::try_new(5i64).unwrap(),
        StackAny::<8>::try_new(7u64).unwrap(),
    ];

    assert!(cells[0].downcast_mut::<i64>(-5).is_ok());
    assert!(cells[1].downcast_mut::<u64>(70).is_ok());

    assert_eq!(cells[0].downcast_ref::<i64>(), Some(-5));
    assert_eq!(cells[1].downcast_ref::<u64>(), Some(70));
}
