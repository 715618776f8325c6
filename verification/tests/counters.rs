use evm_api::Gas;
use evm_api::Ink;

#[test]
fn gas_checked_sub_fails_on_underflow() {
    assert!(Gas(3).checked_sub(Gas(5)).is_none());
    assert_eq!(Gas(5).checked_sub(Gas(3)), Some(Gas(2)));
    assert_eq!(Gas(5).checked_sub(Gas(5)), Some(Gas(0)));
}

#[test]
fn gas_checked_add_fails_on_overflow() {
    assert!(Gas(u64::MAX).checked_add(Gas(1)).is_none());
    assert!(Gas(u64::MAX - 4).checked_add(Gas(5)).is_none());
    assert_eq!(Gas(u64::MAX - 5).checked_add(Gas(5)), Some(Gas(u64::MAX)));
    assert_eq!(Gas(2).checked_add(Gas(3)), Some(Gas(5)));
}

#[test]
fn gas_checked_mul_fails_on_overflow() {
    assert!(Gas(u64::MAX / 2 + 1).checked_mul(2).is_none());
    assert_eq!(Gas(u64::MAX / 2).checked_mul(2), Some(Gas(u64::MAX - 1)));
    assert_eq!(Gas(7).checked_mul(6), Some(Gas(42)));
}

#[test]
fn gas_saturating_ops_clamp() {
    assert_eq!(Gas(u64::MAX).saturating_add(Gas(1)), Gas(u64::MAX));
    assert_eq!(Gas(u64::MAX - 5).saturating_add(Gas(100)), Gas(u64::MAX));
    assert_eq!(Gas(2).saturating_add(Gas(3)), Gas(5));
    assert_eq!(Gas(3).saturating_sub(Gas(5)), Gas(0));
    assert_eq!(Gas(5).saturating_sub(Gas(3)), Gas(2));
}

#[test]
fn gas_plain_ops_exact_in_range() {
    assert_eq!(Gas(2).add(Gas(3)), Gas(5));
    assert_eq!(Gas(5).sub(Gas(3)), Gas(2));
    assert_eq!(Gas(6).mul(7), Gas(42));
}

#[test]
fn gas_assign_ops_exact_in_range() {
    let mut g = Gas(10);
    g.add_assign(Gas(5));
    assert_eq!(g, Gas(15));
    g.sub_assign(Gas(6));
    assert_eq!(g, Gas(9));
    let mut i = Ink(100);
    i.add_assign(Ink(1));
    i.sub_assign(Ink(51));
    assert_eq!(i, Ink(50));
}

#[test]
fn gas_big_endian_encoding_exact() {
    assert_eq!(
        Gas(0x0102030405060708).to_be_bytes(),
        [1, 2, 3, 4, 5, 6, 7, 8]
    );
    assert_eq!(Gas(0).to_be_bytes(), [0; 8]);
    assert_eq!(Gas(u64::MAX).to_be_bytes(), [0xff; 8]);
    assert_eq!(Gas(256).to_be_bytes(), [0, 0, 0, 0, 0, 0, 1, 0]);
}

#[test]
fn gas_big_endian_round_trip() {
    for v in [0u64, 1, 255, 256, 0xdead_beef, u64::MAX - 1, u64::MAX] {
        assert_eq!(Gas::from_be_bytes(&Gas(v).to_be_bytes()), Gas(v));
    }
}

#[test]
fn ink_checked_ops_mirror_gas() {
    assert!(Ink(3).checked_sub(Ink(5)).is_none());
    assert_eq!(Ink(5).checked_sub(Ink(3)), Some(Ink(2)));
    assert!(Ink(u64::MAX).checked_add(Ink(1)).is_none());
    assert_eq!(Ink(2).checked_add(Ink(3)), Some(Ink(5)));
    assert!(Ink(u64::MAX).checked_mul(2).is_none());
    assert_eq!(Ink(7).checked_mul(3), Some(Ink(21)));
}

#[test]
fn ink_saturating_ops_clamp() {
    assert_eq!(Ink(u64::MAX).saturating_add(Ink(9)), Ink(u64::MAX));
    assert_eq!(Ink(1).saturating_sub(Ink(9)), Ink(0));
    assert_eq!(Ink(9).saturating_sub(Ink(1)), Ink(8));
}

#[test]
fn ink_big_endian_round_trip() {
    assert_eq!(
        Ink(0x1122334455667788).to_be_bytes(),
        [0x11, 0x22, 0x33, 0x44, 0x55, 0x66, 0x77, 0x88]
    );
    for v in [0u64, 77, 1 << 63, u64::MAX] {
        assert_eq!(Ink::from_be_bytes(&Ink(v).to_be_bytes()), Ink(v));
    }
}
