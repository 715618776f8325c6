use evm_api::EVM_API_METHOD_REQ_OFFSET;
use evm_api::EvmApiMethod;
use evm_api::EvmApiStatus;
use evm_api::registry::is_request_id;

#[test]
fn status_decoding_is_total_and_exact() {
    assert_eq!(EvmApiStatus::from(0u8), EvmApiStatus::Success);
    assert_eq!(EvmApiStatus::from(2u8), EvmApiStatus::OutOfGas);
    assert_eq!(EvmApiStatus::from(3u8), EvmApiStatus::WriteProtection);
    assert_eq!(EvmApiStatus::from(1u8), EvmApiStatus::Failure);
    for byte in 4u8..=255 {
        assert_eq!(EvmApiStatus::from(byte), EvmApiStatus::Failure);
    }
}

#[test]
fn status_bytes_match_variant_order() {
    assert_eq!(EvmApiStatus::Success.as_byte(), 0);
    assert_eq!(EvmApiStatus::Failure.as_byte(), 1);
    assert_eq!(EvmApiStatus::OutOfGas.as_byte(), 2);
    assert_eq!(EvmApiStatus::WriteProtection.as_byte(), 3);
}

#[test]
fn ordinals_are_stable() {
    let expected: [(EvmApiMethod, u32); 15] = [
        (EvmApiMethod::GetBytes32, 0),
        (EvmApiMethod::SetTrieSlots, 1),
        (EvmApiMethod::GetTransientBytes32, 2),
        (EvmApiMethod::SetTransientBytes32, 3),
        (EvmApiMethod::ContractCall, 4),
        (EvmApiMethod::DelegateCall, 5),
        (EvmApiMethod::StaticCall, 6),
        (EvmApiMethod::Create1, 7),
        (EvmApiMethod::Create2, 8),
        (EvmApiMethod::EmitLog, 9),
        (EvmApiMethod::AccountBalance, 10),
        (EvmApiMethod::AccountCode, 11),
        (EvmApiMethod::AccountCodeHash, 12),
        (EvmApiMethod::AddPages, 13),
        (EvmApiMethod::CaptureHostIO, 14),
    ];
    for (method, ordinal) in expected {
        assert_eq!(method.ordinal(), ordinal);
        assert_eq!(method.request_id(), ordinal + 0x10000000);
    }
}

#[test]
fn request_offset_value_is_fixed() {
    assert_eq!(EVM_API_METHOD_REQ_OFFSET, 0x10000000);
}

#[test]
fn channel_magnitude_selects_meaning() {
    assert!(is_request_id(EvmApiMethod::GetBytes32.request_id()));
    assert!(is_request_id(EvmApiMethod::CaptureHostIO.request_id()));
    assert!(is_request_id(0x10000000));
    assert!(!is_request_id(0x0fffffff));
    assert!(!is_request_id(0));
    assert!(!is_request_id(14));
}
