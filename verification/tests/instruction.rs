use price_wager::errors::WagerError;
use price_wager::instruction::{Operation, Processor};
use price_wager::price::{needs_oracle, resolve_price};

#[test]
fn empty_payloads_are_malformed() {
    assert_eq!(Processor::decode_operation(&[]), Err(WagerError::MalformedInput));
    // An open request needs its direction byte.
    assert_eq!(Processor::decode_operation(&[0]), Err(WagerError::MalformedInput));
}

#[test]
fn unknown_opcodes_are_rejected() {
    assert_eq!(Processor::decode_operation(&[6]), Err(WagerError::UnknownOperation));
    assert_eq!(Processor::decode_operation(&[255, 1, 2]), Err(WagerError::UnknownOperation));
}

#[test]
fn open_payload_carries_direction_and_little_endian_price() {
    let mut data = vec![0u8, 1];
    data.extend_from_slice(&[0xE8, 0x03, 0, 0, 0, 0, 0, 0]);
    assert_eq!(
        Processor::decode_operation(&data),
        Ok(Operation::Open { party_a_increase: true, supplied_price: Some(1000) })
    );
    // Any nonzero flag byte means "increase"; zero means "decrease".
    data[1] = 7;
    assert!(matches!(
        Processor::decode_operation(&data),
        Ok(Operation::Open { party_a_increase: true, .. })
    ));
    data[1] = 0;
    assert!(matches!(
        Processor::decode_operation(&data),
        Ok(Operation::Open { party_a_increase: false, .. })
    ));
}

#[test]
fn short_price_fields_count_as_absent() {
    assert_eq!(
        Processor::decode_operation(&[0, 1]),
        Ok(Operation::Open { party_a_increase: true, supplied_price: None })
    );
    assert_eq!(
        Processor::decode_operation(&[0, 1, 0xE8, 0x03]),
        Ok(Operation::Open { party_a_increase: true, supplied_price: None })
    );
    assert_eq!(
        Processor::decode_operation(&[2, 1, 2, 3]),
        Ok(Operation::Join { supplied_price: None })
    );
}

#[test]
fn join_and_resolve_read_the_price_from_byte_one() {
    let mut data = vec![2u8];
    data.extend_from_slice(&[0x19, 0x04, 0, 0, 0, 0, 0, 0]);
    assert_eq!(
        Processor::decode_operation(&data),
        Ok(Operation::Join { supplied_price: Some(1049) })
    );
    data[0] = 3;
    assert_eq!(
        Processor::decode_operation(&data),
        Ok(Operation::Resolve { supplied_price: Some(1049) })
    );
}

#[test]
fn parameterless_opcodes_decode_alone() {
    assert_eq!(Processor::decode_operation(&[1]), Ok(Operation::RefreshPrice));
    assert_eq!(Processor::decode_operation(&[4]), Ok(Operation::Unwind));
    assert_eq!(Processor::decode_operation(&[5]), Ok(Operation::Close));
}

#[test]
fn the_resolver_prefers_a_usable_supplied_price() {
    assert_eq!(resolve_price(Some(42), Some(99)), Ok(42));
    assert!(!needs_oracle(&Some(42)));
}

#[test]
fn the_resolver_consults_the_oracle_for_absent_or_zero_prices() {
    assert!(needs_oracle(&None));
    assert!(needs_oracle(&Some(0)));
    assert_eq!(resolve_price(None, Some(99)), Ok(99));
    assert_eq!(resolve_price(Some(0), Some(99)), Ok(99));
    assert_eq!(resolve_price(None, None), Err(WagerError::OracleUnavailable));
    assert_eq!(resolve_price(Some(0), None), Err(WagerError::OracleUnavailable));
}
