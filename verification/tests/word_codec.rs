//! The word codec on chosen values.

use parity_scale_codec::Encode;
use precompile_dapps_staking::{
    argument_from_h160, argument_from_h160_array, argument_from_h160_vec, argument_from_u128,
    argument_from_u32, Contract, DappsStakingWrapper, EvmInArg, H160,
};

fn input_with_words(words: &[Vec<u8>]) -> Vec<u8> {
    let mut input = vec![0xaa, 0xbb, 0xcc, 0xdd];
    for word in words {
        input.extend_from_slice(word);
    }
    input
}

#[test]
fn u32_is_right_aligned_big_endian() {
    let mut expected = vec![0u8; 32];
    expected[28] = 0x12;
    expected[29] = 0x34;
    expected[30] = 0x56;
    expected[31] = 0x78;
    assert_eq!(argument_from_u32(0x1234_5678), expected);
}

#[test]
fn u128_is_right_aligned_big_endian() {
    let value: u128 = 0x0102_0304_0506_0708_090a_0b0c_0d0e_0f10;
    let mut expected = vec![0u8; 16];
    expected.extend_from_slice(&value.to_be_bytes());
    assert_eq!(argument_from_u128(value), expected);
}

#[test]
fn words_of_zero_and_of_the_greatest_values() {
    assert_eq!(argument_from_u32(0), vec![0u8; 32]);
    assert_eq!(argument_from_u128(0), vec![0u8; 32]);
    let mut greatest_u32 = vec![0u8; 28];
    greatest_u32.extend_from_slice(&[0xff; 4]);
    assert_eq!(argument_from_u32(u32::MAX), greatest_u32);
    let mut greatest_u128 = vec![0u8; 16];
    greatest_u128.extend_from_slice(&[0xff; 16]);
    assert_eq!(argument_from_u128(u128::MAX), greatest_u128);
}

#[test]
fn u32_round_trips_through_a_word() {
    for value in [0u32, 1, 0x60, 0xff, 0x100, 0x1234_5678, u32::MAX - 1, u32::MAX] {
        let input = input_with_words(&[argument_from_u32(value)]);
        assert_eq!(EvmInArg::new(&input).to_u32(1), value);
        assert_eq!(EvmInArg::new(&input).to_u256(1).low_u32(), value);
    }
}

#[test]
fn u128_round_trips_through_a_word() {
    for value in [0u128, 1, u64::MAX as u128, (u64::MAX as u128) + 1, u128::MAX - 1, u128::MAX] {
        let input = input_with_words(&[vec![0u8; 32], argument_from_u128(value)]);
        assert_eq!(EvmInArg::new(&input).to_u128(2), value);
        assert_eq!(EvmInArg::new(&input).to_u256(2).low_u128(), value);
    }
}

#[test]
fn address_round_trips_through_a_word() {
    let mut bytes = [0u8; 20];
    for (i, byte) in bytes.iter_mut().enumerate() {
        *byte = 0xa0 + i as u8;
    }
    let address = H160(bytes);
    let input = input_with_words(&[argument_from_h160(address)]);
    assert_eq!(EvmInArg::new(&input).to_h160(1), address);
    assert_eq!(argument_from_h160(address), argument_from_h160_array(bytes));
    assert_eq!(&argument_from_h160(address)[..12], &[0u8; 12]);
    assert_eq!(&argument_from_h160(address)[12..], &bytes);
}

#[test]
fn address_ignores_the_high_bytes_of_its_word() {
    let mut word = vec![0xee; 32];
    word[12..].copy_from_slice(&[0x11; 20]);
    let input = input_with_words(&[word]);
    assert_eq!(EvmInArg::new(&input).to_h160(1), H160([0x11; 20]));
}

#[test]
fn low_readings_cut_what_does_not_fit() {
    // 2^32 + 5: the low 32 bits are 5.
    let mut word = vec![0u8; 32];
    word[27] = 1;
    word[31] = 5;
    let input = input_with_words(&[word]);
    assert_eq!(EvmInArg::new(&input).to_u32(1), 5);
    assert_eq!(EvmInArg::new(&input).to_u128(1), (1u128 << 32) + 5);

    // 2^128 + 7: the low 128 bits are 7.
    let mut word = vec![0u8; 32];
    word[15] = 1;
    word[31] = 7;
    let input = input_with_words(&[word]);
    assert_eq!(EvmInArg::new(&input).to_u128(1), 7);

    // The greatest word.
    let input = input_with_words(&[vec![0xff; 32]]);
    assert_eq!(EvmInArg::new(&input).to_u32(1), u32::MAX);
    assert_eq!(EvmInArg::new(&input).to_u128(1), u128::MAX);
}

#[test]
fn words_are_read_by_their_position() {
    let input = input_with_words(&[argument_from_u32(1), argument_from_u32(2), argument_from_u32(3)]);
    let input = EvmInArg::new(&input);
    assert_eq!(input.len(), 100);
    assert_eq!(input.to_u32(1), 1);
    assert_eq!(input.to_u32(2), 2);
    assert_eq!(input.to_u32(3), 3);
    assert_eq!(input.selector(), Ok([0xaa, 0xbb, 0xcc, 0xdd]));
}

#[test]
fn account_is_left_padded_to_a_word() {
    let account = [7u8, 8, 9];
    let mut expected = vec![0u8; 29];
    expected.extend_from_slice(&account);
    assert_eq!(DappsStakingWrapper::argument_from_account_id(&account), expected);
    assert_eq!(DappsStakingWrapper::argument_from_account_id(&[]), vec![0u8; 32]);
    let full = [0x5a; 32];
    assert_eq!(DappsStakingWrapper::argument_from_account_id(&full), full.to_vec());
    assert_eq!(argument_from_h160_vec(account.to_vec()), expected);
}

#[test]
fn evm_contract_is_a_zero_tag_and_the_address() {
    let address = [0x09u8; 20];
    let encoded = Contract::Evm(H160(address)).encode();
    assert_eq!(encoded.len(), 21);
    assert_eq!(encoded[0], 0);
    assert_eq!(&encoded[1..], &address);
    // The layout of a tagged union in the ledger's codec: the index of the
    // variant in one byte, then the fields.
    assert_eq!(encoded, (0u8, address).encode());
    assert_eq!(
        DappsStakingWrapper::decode_smart_contract(H160(address)),
        Ok(Contract::Evm(H160(address)))
    );
}

#[test]
fn contract_is_read_back_from_its_bytes() {
    let evm = Contract::Evm(H160([0x09; 20]));
    let wasm = Contract::Wasm([0x77; 32]);
    assert_eq!(Contract::decode(&evm.encode()), Some(evm));
    assert_eq!(Contract::decode(&wasm.encode()), Some(wasm));

    // What follows the payload is not read.
    let mut longer = evm.encode();
    longer.extend_from_slice(&[0xff; 11]);
    assert_eq!(Contract::decode(&longer), Some(evm));
}

#[test]
fn contract_is_not_read_from_other_bytes() {
    let evm = Contract::Evm(H160([0x09; 20])).encode();
    let wasm = Contract::Wasm([0x77; 32]).encode();
    assert_eq!(Contract::decode(&[]), None);
    assert_eq!(Contract::decode(&[0]), None);
    assert_eq!(Contract::decode(&evm[..20]), None);
    assert_eq!(Contract::decode(&wasm[..32]), None);
    let mut unknown = evm.clone();
    unknown[0] = 2;
    assert_eq!(Contract::decode(&unknown), None);
    // An EVM tag in front of a Wasm payload is an EVM contract with the
    // first 20 bytes of the payload.
    let mut mixed = wasm.clone();
    mixed[0] = 0;
    assert_eq!(Contract::decode(&mixed), Some(Contract::Evm(H160([0x77; 20]))));
}

#[test]
fn wasm_contract_is_tag_one_and_the_account() {
    let account = [0x77u8; 32];
    let encoded = Contract::Wasm(account).encode();
    assert_eq!(encoded, (1u8, account).encode());
    assert_eq!(encoded.len(), 33);
}

#[test]
fn default_contract_is_the_zero_address() {
    assert_eq!(Contract::default(), Contract::Evm(H160::zero()));
    assert_eq!(H160::zero().to_fixed_bytes(), [0u8; 20]);
    assert_eq!(H160::from_slice(&[3u8; 20]).as_bytes(), &[3u8; 20]);
}
