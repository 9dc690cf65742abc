use native_counter::{
    counter_contract, decode_record, encode_record, ContractError, CounterRecord, DecodeError,
    MutateError,
};

#[test]
fn end_to_end_increment() {
    let mut buffer = encode_record(CounterRecord { count: 5 });
    let payload = [0x00, 3, 0, 0, 0];
    assert_eq!(counter_contract(&payload, &mut buffer), Ok(()));
    assert_eq!(decode_record(&buffer), Ok(CounterRecord { count: 8 }));
    assert_eq!(buffer, [8, 0, 0, 0]);
}

#[test]
fn end_to_end_decrement() {
    let mut buffer = encode_record(CounterRecord { count: 8 });
    let payload = [0x01, 8, 0, 0, 0];
    assert_eq!(counter_contract(&payload, &mut buffer), Ok(()));
    assert_eq!(decode_record(&buffer), Ok(CounterRecord { count: 0 }));
}

#[test]
fn state_lives_in_the_buffer_only() {
    let mut buffer = vec![0u8; 4];
    for _ in 0..3 {
        assert_eq!(counter_contract(&[0x00, 0, 1, 0, 0], &mut buffer), Ok(()));
    }
    assert_eq!(decode_record(&buffer), Ok(CounterRecord { count: 768 }));
    assert_eq!(counter_contract(&[0x01, 1, 0, 0, 0], &mut buffer), Ok(()));
    assert_eq!(decode_record(&buffer), Ok(CounterRecord { count: 767 }));
    assert_eq!(buffer, vec![255, 2, 0, 0]);
}

#[test]
fn decode_failures_leave_the_buffer_alone() {
    let mut buffer = vec![5, 0, 0, 0, 9];
    assert_eq!(
        counter_contract(&[], &mut buffer),
        Err(ContractError::Decode(DecodeError::Truncated))
    );
    assert_eq!(
        counter_contract(&[0x00, 1, 0, 0], &mut buffer),
        Err(ContractError::Decode(DecodeError::Truncated))
    );
    assert_eq!(
        counter_contract(&[0x02, 1, 0, 0, 0], &mut buffer),
        Err(ContractError::Decode(DecodeError::UnknownDiscriminant))
    );
    assert_eq!(buffer, vec![5, 0, 0, 0, 9]);
}

#[test]
fn decoding_comes_before_the_buffer_is_read() {
    let mut buffer = vec![1u8, 2];
    assert_eq!(
        counter_contract(&[0xff], &mut buffer),
        Err(ContractError::Decode(DecodeError::UnknownDiscriminant))
    );
    assert_eq!(
        counter_contract(&[0x00, 1, 0, 0, 0], &mut buffer),
        Err(ContractError::Mutate(MutateError::Corrupt))
    );
    assert_eq!(buffer, vec![1, 2]);
}

#[test]
fn mutate_failures_leave_the_buffer_alone() {
    let mut buffer = vec![255, 255, 255, 255, 1, 2, 3];
    assert_eq!(
        counter_contract(&[0x00, 1, 0, 0, 0], &mut buffer),
        Err(ContractError::Mutate(MutateError::Overflow))
    );
    assert_eq!(buffer, vec![255, 255, 255, 255, 1, 2, 3]);
    let mut buffer = vec![0, 0, 0, 0, 1, 2, 3];
    assert_eq!(
        counter_contract(&[0x01, 1, 0, 0, 0], &mut buffer),
        Err(ContractError::Mutate(MutateError::Underflow))
    );
    assert_eq!(buffer, vec![0, 0, 0, 0, 1, 2, 3]);
}

#[test]
fn accounts_written_by_borsh_are_updated_in_place() {
    let mut buffer = borsh::to_vec(&41u32).unwrap();
    let payload = borsh::to_vec(&(0u8, 1u32)).unwrap();
    assert_eq!(counter_contract(&payload, &mut buffer), Ok(()));
    assert_eq!(buffer, borsh::to_vec(&42u32).unwrap());
}
