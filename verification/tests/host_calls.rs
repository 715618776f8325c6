use evm_api::Bytes20;
use evm_api::Bytes32;
use evm_api::DataReader;
use evm_api::EvmApi;
use evm_api::EvmApiStatus;
use evm_api::Gas;
use evm_api::HostError;
use evm_api::Ink;
use evm_api::MemoryHost;
use evm_api::UserOutcomeKind;
use evm_api::api::read_return_data_twice;
use evm_api::api::staged_write_survives_flush;

fn word(byte: u8) -> Bytes32 {
    Bytes32([byte; 32])
}

#[test]
fn cached_write_visible_after_flush() {
    let mut host = MemoryHost::new(false);
    let key = word(7);
    let value = word(42);
    let _staged = host.cache_bytes32(key, value);
    let flushed = host.flush_storage_cache(false, Gas(1000));
    assert!(matches!(flushed, Ok(Gas(1))));
    let (read, _cost) = host.get_bytes32(key, Gas(1000));
    assert_eq!(read, value);
}

#[test]
fn flush_with_clear_discards_overlay() {
    let mut host = MemoryHost::new(false);
    let _staged = host.cache_bytes32(word(1), word(11));
    let flushed = host.flush_storage_cache(true, Gas(1000));
    assert!(matches!(flushed, Ok(Gas(1))));
    // The overlay was discarded: committing the empty overlay costs nothing,
    // so it succeeds even with no budget at all.
    assert!(matches!(host.flush_storage_cache(false, Gas(0)), Ok(Gas(0))));
    // A subsequent staged write starts from an empty overlay: exactly one
    // write to commit.
    let _staged = host.cache_bytes32(word(2), word(22));
    assert!(matches!(host.flush_storage_cache(false, Gas(1000)), Ok(Gas(1))));
    let (read, _cost) = host.get_bytes32(word(1), Gas(0));
    assert_eq!(read, word(11));
}

#[test]
fn flush_without_clear_keeps_overlay() {
    let mut host = MemoryHost::new(false);
    let _staged = host.cache_bytes32(word(1), word(11));
    assert!(matches!(host.flush_storage_cache(false, Gas(10)), Ok(Gas(1))));
    // The staged write is still in the overlay: committing again still costs
    // one gas per staged write.
    assert!(matches!(host.flush_storage_cache(false, Gas(10)), Ok(Gas(1))));
}

#[test]
fn flush_with_insufficient_budget_is_out_of_gas() {
    let mut host = MemoryHost::new(false);
    let _staged = host.cache_bytes32(word(3), word(33));
    let flushed = host.flush_storage_cache(false, Gas(0));
    let error = flushed.unwrap_err();
    assert!(matches!(error, HostError::OutOfGas));
    assert_eq!(error.status(), EvmApiStatus::OutOfGas);
    assert_ne!(error.status(), EvmApiStatus::Failure);
    // Nothing was committed.
    let (read, _cost) = host.get_bytes32(word(3), Gas(0));
    assert_eq!(read, word(0));
}

#[test]
fn staged_write_law_on_the_memory_host() {
    let mut host = MemoryHost::new(false);
    let committed = staged_write_survives_flush(&mut host, word(9), word(99), false, Gas(1000));
    assert_eq!(committed, Some(word(99)));
    let mut broke = MemoryHost::new(false);
    let failed = staged_write_survives_flush(&mut broke, word(9), word(99), false, Gas(0));
    assert_eq!(failed, None);
}

#[test]
fn uncommitted_read_returns_zero() {
    let mut host = MemoryHost::new(false);
    let (read, _cost) = host.get_bytes32(word(5), Gas(100));
    assert_eq!(read, word(0));
}

#[test]
fn transient_storage_round_trip() {
    let mut host = MemoryHost::new(false);
    assert!(host.set_transient_bytes32(word(4), word(44)).is_ok());
    assert_eq!(host.get_transient_bytes32(word(4)), word(44));
    assert_eq!(host.get_transient_bytes32(word(6)), word(0));
}

#[test]
fn transient_write_fails_under_write_protection() {
    let mut host = MemoryHost::new(true);
    let denied = host.set_transient_bytes32(word(4), word(44));
    assert!(matches!(denied, Err(HostError::WriteProtection)));
    assert_eq!(host.get_transient_bytes32(word(4)), word(0));
}

#[test]
fn emit_log_topic_counts() {
    let mut host = MemoryHost::new(false);
    for topics in 0u32..=4 {
        assert!(host.emit_log(vec![0u8; 32 * 4], topics).is_ok());
    }
    let rejected = host.emit_log(vec![0u8; 32 * 5], 5);
    let error = rejected.unwrap_err();
    assert!(matches!(error, HostError::Failure(_)));
    assert_eq!(error.status(), EvmApiStatus::Failure);
}

#[test]
fn emit_log_fails_under_write_protection() {
    let mut host = MemoryHost::new(true);
    let denied = host.emit_log(vec![1, 2, 3], 0);
    assert!(matches!(denied, Err(HostError::WriteProtection)));
}

#[test]
fn return_data_reflects_most_recent_call() {
    let mut host = MemoryHost::new(false);
    let target = Bytes20([8; 20]);
    let calldata = [1u8, 2, 3, 4];
    let (len, _cost, outcome) = host.contract_call(target, &calldata, Gas(100), Gas(50), word(0));
    assert_eq!(len, 4);
    assert_eq!(outcome, UserOutcomeKind::Success);
    assert_eq!(host.get_return_data().slice(), &calldata);
}

#[test]
fn return_data_identical_across_repeated_reads() {
    let mut host = MemoryHost::new(false);
    let target = Bytes20([8; 20]);
    host.delegate_call(target, &[9, 8, 7], Gas(100), Gas(50));
    let first = host.get_return_data();
    let second = host.get_return_data();
    assert_eq!(first.slice(), second.slice());
    assert_eq!(first.slice(), &[9, 8, 7]);
    let (pair_a, pair_b) = read_return_data_twice(&host);
    assert_eq!(pair_a.slice(), pair_b.slice());
}

#[test]
fn static_call_echoes_without_touching_state() {
    let mut host = MemoryHost::new(false);
    let _staged = host.cache_bytes32(word(1), word(11));
    host.flush_storage_cache(false, Gas(10)).unwrap();
    let (len, _cost, outcome) = host.static_call(Bytes20([2; 20]), &[5, 5], Gas(100), Gas(50));
    assert_eq!(len, 2);
    assert_eq!(outcome, UserOutcomeKind::Success);
    let (read, _cost) = host.get_bytes32(word(1), Gas(0));
    assert_eq!(read, word(11));
}

#[test]
fn creations_fail_with_a_reason() {
    let mut host = MemoryHost::new(false);
    let (created, len, cost) = host.create1(vec![0x60, 0x00], word(0), Gas(100));
    assert!(matches!(created, Err(HostError::Failure(_))));
    assert_eq!(len, 0);
    assert_eq!(cost, Gas(0));
    let (created2, len2, _cost2) = host.create2(vec![0x60, 0x00], word(0), word(5), Gas(100));
    assert!(matches!(created2, Err(HostError::Failure(_))));
    assert_eq!(len2, 0);
    assert_eq!(host.get_return_data().slice(), &[] as &[u8]);
}

#[test]
fn absent_accounts_answer_with_zeros() {
    let mut host = MemoryHost::new(false);
    let address = Bytes20([3; 20]);
    let (balance, _cost) = host.account_balance(address);
    assert_eq!(balance, word(0));
    let (code, _cost) = host.account_code(1, address, Gas(100));
    assert_eq!(code.slice(), &[] as &[u8]);
    let (hash, _cost) = host.account_codehash(address);
    assert_eq!(hash, word(0));
}

#[test]
fn tracing_and_page_accounting_do_not_fail() {
    let mut host = MemoryHost::new(false);
    assert_eq!(host.add_pages(4), Gas(0));
    host.capture_hostio("user_entrypoint", &[1], &[2], Ink(10), Ink(3));
    let (read, _cost) = host.get_bytes32(word(1), Gas(0));
    assert_eq!(read, word(0));
}

#[test]
fn vec_reader_shares_bytes_across_clones() {
    let reader = evm_api::VecReader::new(vec![10, 20, 30]);
    let copy = reader.clone();
    assert_eq!(reader.slice(), &[10, 20, 30]);
    assert_eq!(copy.slice(), reader.slice());
}
