use zk_addition::field::FieldValue;

fn modulus_minus(k: u64) -> FieldValue {
    FieldValue {
        l0: 0xffffffff00000001 - k,
        l1: 0x53bda402fffe5bfe,
        l2: 0x3339d80809a1d805,
        l3: 0x73eda753299d7d48,
    }
}

#[test]
fn separately_converted_values_are_equal() {
    let a = FieldValue::from_u32(19);
    let b = FieldValue::from_u32(19);
    assert_eq!(a, b);
    assert_ne!(a, FieldValue::from_u32(20));
}

#[test]
fn from_u32_sets_low_limb() {
    let v = FieldValue::from_u32(u32::MAX);
    assert_eq!(v, FieldValue { l0: u32::MAX as u64, l1: 0, l2: 0, l3: 0 });
}

#[test]
fn small_sum() {
    let s = FieldValue::from_u32(17).add(&FieldValue::from_u32(2));
    assert_eq!(s, FieldValue::from_u32(19));
}

#[test]
fn sum_with_zero_is_unchanged() {
    let a = FieldValue::from_u32(12345);
    assert_eq!(a.add(&FieldValue::from_u32(0)), a);
}

#[test]
fn sum_wraps_around_the_modulus() {
    let s = modulus_minus(1).add(&FieldValue::from_u32(2));
    assert_eq!(s, FieldValue::from_u32(1));
    let t = modulus_minus(1).add(&FieldValue::from_u32(1));
    assert_eq!(t, FieldValue::from_u32(0));
}

#[test]
fn sum_of_large_values_carries_across_limbs() {
    let a = FieldValue { l0: u64::MAX, l1: 0, l2: 0, l3: 0 };
    let s = a.add(&FieldValue::from_u32(1));
    assert_eq!(s, FieldValue { l0: 0, l1: 1, l2: 0, l3: 0 });
}

#[test]
fn canonical_form_stops_below_the_modulus() {
    assert!(modulus_minus(1).is_canonical());
    assert!(!modulus_minus(0).is_canonical());
    assert!(FieldValue::from_u32(0).is_canonical());
    assert!(!FieldValue { l0: 0, l1: 0, l2: 0, l3: u64::MAX }.is_canonical());
    assert!(FieldValue { l0: u64::MAX, l1: u64::MAX, l2: u64::MAX, l3: 0x73eda753299d7d47 }.is_canonical());
}
