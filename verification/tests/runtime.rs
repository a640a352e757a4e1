use parity_scale_codec::{Decode, Encode};
use runtime_override::era::Era;
use runtime_override::runtime::{
    account_ownership_digest, babe_genesis_epoch_config, ethereum_transact_call, extrinsic_filter,
    migrate, usable_balance_instance, BLOCK_BUILDER_API_ID, CORE_API_ID,
    ETHEREUM_RUNTIME_RPC_API_ID, FROM_PANGORO_INBOUND_LANE_API_ID, METADATA_API_ID,
    TAGGED_TRANSACTION_QUEUE_API_ID, version, AllowedSlots, BalancesInstance, MigrationStep,
    MultiAddress, OpaqueExtrinsic, Runtime, SignedExtra, UncheckedExtrinsic, BLOCK_HASH_COUNT,
    MAXIMUM_BLOCK_WEIGHT, PANGOLIN_CHAIN_ID, PANGORO_CHAIN_ID,
};
use runtime_override::{
    native_version, pangolin_to_pangoro_account_ownership_digest, wasm_binary_unwrap,
    CustomOnRuntimeUpgrade, TransactionConverter,
};

#[test]
fn version_is_pangolin_27000() {
    let v = version();
    assert_eq!(v.spec_name, "Pangolin");
    assert_eq!(v.impl_name, "Pangolin");
    assert_eq!(v.spec_version, 27000);
    assert_eq!(v.authoring_version, 0);
    assert_eq!(v.impl_version, 0);
    assert_eq!(v.transaction_version, 0);
}

#[test]
fn version_lists_the_runtime_apis() {
    let v = version();
    assert_eq!(v.apis.len(), 19);
    assert_eq!(v.apis[0], (CORE_API_ID, 3));
    assert_eq!(CORE_API_ID, [0xdf, 0x6a, 0xcb, 0x68, 0x99, 0x07, 0x60, 0x9b]);
    assert_eq!(v.apis[1], (METADATA_API_ID, 1));
    assert_eq!(v.apis[2], (BLOCK_BUILDER_API_ID, 5));
    assert_eq!(v.apis[3], (TAGGED_TRANSACTION_QUEUE_API_ID, 3));
    assert_eq!(v.apis[15], (ETHEREUM_RUNTIME_RPC_API_ID, 1));
    assert_eq!(v.apis[18], (FROM_PANGORO_INBOUND_LANE_API_ID, 1));
    let mut ids: Vec<_> = v.apis.iter().map(|(id, _)| *id).collect();
    ids.sort();
    ids.dedup();
    assert_eq!(ids.len(), 19);
}

#[test]
fn native_version_carries_the_runtime_version() {
    let n = native_version();
    assert_eq!(n.runtime_version.spec_version, 27000);
    assert_eq!(n.runtime_version.spec_name, "Pangolin");
    assert_eq!(n.runtime_version.apis, version().apis);
    assert!(n.can_author_with.is_empty());
}

#[test]
fn wasm_binary_unwrap_gives_the_binary() {
    let bytes: &[u8] = &[0, 97, 115, 109];
    assert_eq!(wasm_binary_unwrap(Some(bytes)), bytes);
}

#[test]
fn babe_genesis_config() {
    let c = babe_genesis_epoch_config();
    assert_eq!(c.c, (1, 4));
    assert_eq!(c.allowed_slots, AllowedSlots::PrimaryAndSecondaryPlainSlots);
}

#[test]
fn transaction_period_is_half_the_next_power_of_two() {
    assert_eq!(Runtime::transaction_period(BLOCK_HASH_COUNT), 128);
    assert_eq!(Runtime::transaction_period(2400), 2048);
    assert_eq!(Runtime::transaction_period(2048), 1024);
    assert_eq!(Runtime::transaction_period(1), 0);
    assert_eq!(Runtime::transaction_period(0), 0);
    assert_eq!(Runtime::transaction_period(0x8000_0000), 0x4000_0000);
    assert_eq!(Runtime::transaction_period(0x8000_0001), 2);
    assert_eq!(Runtime::transaction_period(u32::MAX), 2);
}

#[test]
fn signed_extra_uses_the_previous_block() {
    assert_eq!(
        Runtime::signed_extra(1000, 3),
        SignedExtra { era: Era::Mortal(128, 999 % 128), nonce: 3, tip: 0 }
    );
    assert_eq!(
        Runtime::signed_extra(1, 7),
        SignedExtra { era: Era::Mortal(128, 0), nonce: 7, tip: 0 }
    );
    // block number 0: saturates at block 0
    assert_eq!(
        Runtime::signed_extra(0, 0),
        SignedExtra { era: Era::Mortal(128, 0), nonce: 0, tip: 0 }
    );
}

#[test]
fn create_transaction_signs_with_the_computed_extra() {
    let account = [7u8; 32];
    let tx = Runtime::create_transaction(
        vec![1u8, 2, 3],
        account,
        5,
        300,
        |call: &Vec<u8>, extra: &SignedExtra| Some((call.clone(), *extra)),
    );
    let (call, (address, signature, extra)) = tx.expect("signed");
    assert_eq!(call, vec![1, 2, 3]);
    match address {
        MultiAddress::Id(id) => assert_eq!(id, account),
    }
    let expected = SignedExtra { era: Era::Mortal(128, 299 % 128), nonce: 5, tip: 0 };
    assert_eq!(extra, expected);
    assert_eq!(signature, (vec![1, 2, 3], expected));
}

#[test]
fn create_transaction_fails_when_signing_fails() {
    let tx = Runtime::create_transaction(
        vec![9u8],
        [0u8; 32],
        0,
        10,
        |_call: &Vec<u8>, _extra: &SignedExtra| None::<u8>,
    );
    assert!(tx.is_none());
}

#[test]
fn chain_ids_are_pagl_and_pagr() {
    assert_eq!(&PANGOLIN_CHAIN_ID, b"pagl");
    assert_eq!(&PANGORO_CHAIN_ID, b"pagr");
}

#[test]
fn ownership_digest_concatenates_the_encodings() {
    let call = [0x11u8, 0x22, 0x33];
    let account = [0xAAu8; 32];
    let digest = pangolin_to_pangoro_account_ownership_digest(
        &call,
        &account.encode(),
        &0x0102_0304u32.encode(),
    );
    let mut expected = vec![0x11u8, 0x22, 0x33];
    expected.extend_from_slice(&[0xAA; 32]);
    expected.extend_from_slice(&[0x04, 0x03, 0x02, 0x01]);
    expected.extend_from_slice(b"pagl");
    expected.extend_from_slice(b"pagr");
    assert_eq!(digest, expected);
    assert_eq!(digest.len(), 3 + 32 + 4 + 8);
}

#[test]
fn ownership_digest_of_a_one_byte_account() {
    let digest =
        pangolin_to_pangoro_account_ownership_digest(&1u8.encode(), &2u8.encode(), &3u32.encode());
    let mut expected = vec![1u8, 2, 3, 0, 0, 0];
    expected.extend_from_slice(&PANGOLIN_CHAIN_ID);
    expected.extend_from_slice(&PANGORO_CHAIN_ID);
    assert_eq!(digest, expected);
    assert_eq!(digest.len(), 14);
}

#[test]
fn ownership_digest_decodes_to_its_parts() {
    let call: Vec<u8> = vec![7, 8, 9];
    let account = [5u8; 32];
    let version = 27000u32;
    let digest = pangolin_to_pangoro_account_ownership_digest(
        &call.encode(),
        &account.encode(),
        &version.encode(),
    );
    let decoded =
        <(Vec<u8>, [u8; 32], u32, [u8; 4], [u8; 4])>::decode(&mut &digest[..]).expect("decodes");
    assert_eq!(decoded, (call, account, version, PANGOLIN_CHAIN_ID, PANGORO_CHAIN_ID));
}

#[test]
fn ownership_digest_with_other_chains() {
    let digest = account_ownership_digest(&[], &[1u8; 32], &27000u32.to_le_bytes(), b"abcd", b"wxyz");
    let mut expected = vec![1u8; 32];
    expected.extend_from_slice(&27000u32.to_le_bytes());
    expected.extend_from_slice(b"abcdwxyz");
    assert_eq!(digest, expected);
}

#[test]
fn opaque_extrinsic_decodes_to_the_unsigned_one() {
    let tx = vec![0x10u8, 0x20, 0x30, 0x40];
    let opaque = TransactionConverter.convert_transaction_opaque(&tx);
    let unchecked = TransactionConverter.convert_transaction(&tx);
    let encoded = opaque.encode();
    assert_eq!(encoded, unchecked.encode());
    let decoded = UncheckedExtrinsic::decode(&encoded).expect("decodes");
    assert_eq!(decoded.function, unchecked.function);
}

#[test]
fn decode_rejects_what_is_not_an_unsigned_extrinsic() {
    // a signed extrinsic's version byte
    assert!(UncheckedExtrinsic::decode(&[8, 0x84, 41, 0]).is_none());
    // an empty body
    assert!(UncheckedExtrinsic::decode(&[0]).is_none());
    // a length longer than the input
    assert!(UncheckedExtrinsic::decode(&[40, 4, 41]).is_none());
    // a non-canonical length
    assert!(UncheckedExtrinsic::decode(&[0x0d, 0x00, 4, 41, 0]).is_none());
    // trailing bytes are left unread
    let x = UncheckedExtrinsic::decode(&[12, 4, 41, 0, 99]).expect("decodes");
    assert_eq!(x.function, vec![41, 0]);
}

#[test]
fn opaque_encode_prefixes_the_length() {
    assert_eq!(OpaqueExtrinsic(vec![1, 2]).encode(), vec![8, 1, 2]);
    assert_eq!(OpaqueExtrinsic(vec![]).encode(), vec![0]);
}

#[test]
fn transact_call_prefixes_pallet_and_call_index() {
    assert_eq!(ethereum_transact_call(&[5, 6]), vec![41, 0, 5, 6]);
    assert_eq!(ethereum_transact_call(&[]), vec![41, 0]);
}

#[test]
fn convert_transaction_builds_an_unsigned_transact() {
    let x = TransactionConverter.convert_transaction(&[0xde, 0xad]);
    assert_eq!(x.function, vec![41, 0, 0xde, 0xad]);
}

#[test]
fn unsigned_extrinsic_encoding_short() {
    let x = UncheckedExtrinsic::new_unsigned(vec![41, 0, 7]);
    // 4 bytes of body: compact(4) = 4 << 2 = 16
    assert_eq!(x.encode(), vec![16, 4, 41, 0, 7]);
}

#[test]
fn unsigned_extrinsic_encoding_two_byte_length() {
    let x = UncheckedExtrinsic::new_unsigned(vec![0u8; 99]);
    // body of 100 bytes: (100 << 2) | 1 = 401 = 0x0191, little-endian
    let e = x.encode();
    assert_eq!(&e[..3], &[0x91, 0x01, 4]);
    assert_eq!(e.len(), 102);
}

#[test]
fn unsigned_extrinsic_encoding_four_byte_length() {
    let x = UncheckedExtrinsic::new_unsigned(vec![0u8; 16383]);
    // body of 16384 bytes: (16384 << 2) | 2 = 65538 = 0x00010002
    let e = x.encode();
    assert_eq!(&e[..5], &[0x02, 0x00, 0x01, 0x00, 4]);
    assert_eq!(e.len(), 16388);
}

#[test]
fn convert_transaction_opaque_is_version_and_call() {
    let o = TransactionConverter.convert_transaction_opaque(&[1, 2, 3]);
    assert_eq!(o.0, vec![4, 41, 0, 1, 2, 3]);
    let long = vec![9u8; 70];
    let o = TransactionConverter.convert_transaction_opaque(&long);
    let mut expected = vec![4u8, 41, 0];
    expected.extend_from_slice(&long);
    assert_eq!(o.0, expected);
}

#[test]
fn extrinsic_filter_keeps_ethereum_transactions() {
    let xts = vec![
        UncheckedExtrinsic::new_unsigned(vec![41, 0, 1, 2]),
        UncheckedExtrinsic::new_unsigned(vec![4, 0, 1]),
        UncheckedExtrinsic::new_unsigned(vec![41, 1, 9]),
        UncheckedExtrinsic::new_unsigned(vec![41]),
        UncheckedExtrinsic::new_unsigned(vec![41, 0]),
    ];
    assert_eq!(extrinsic_filter(&xts), vec![vec![1u8, 2], vec![]]);
}

#[test]
fn extrinsic_filter_recovers_a_converted_transaction() {
    let tx = vec![0x55u8, 0x66, 0x77];
    let xts = vec![TransactionConverter.convert_transaction(&tx)];
    assert_eq!(extrinsic_filter(&xts), vec![tx]);
}

#[test]
fn usable_balance_instances() {
    assert_eq!(usable_balance_instance(0), Some(BalancesInstance::Ring));
    assert_eq!(usable_balance_instance(1), Some(BalancesInstance::Kton));
    assert_eq!(usable_balance_instance(2), None);
    assert_eq!(usable_balance_instance(255), None);
}

#[test]
fn migration_removes_fee_market_item_and_moves_dispatch() {
    let m = migrate();
    assert_eq!(m.weight, MAXIMUM_BLOCK_WEIGHT);
    assert_eq!(m.weight, 2_000_000_000_000);
    assert_eq!(m.steps.len(), 2);
    match &m.steps[0] {
        MigrationStep::RemoveStoragePrefix { module, item } => {
            assert_eq!(module, "FeeMarket");
            assert_eq!(item, "ConfirmedMessagesThisBlock");
        }
        _ => panic!("remove expected first"),
    }
    match &m.steps[1] {
        MigrationStep::MovePallet { old, new } => {
            assert_eq!(old, "BridgeDispatch");
            assert_eq!(new, "BridgePangoroDispatch");
        }
        _ => panic!("move expected second"),
    }
}

#[test]
fn upgrade_hooks() {
    assert!(CustomOnRuntimeUpgrade::pre_upgrade().is_ok());
    assert!(CustomOnRuntimeUpgrade::post_upgrade(false).is_ok());
    let m = CustomOnRuntimeUpgrade::on_runtime_upgrade();
    assert_eq!(m.weight, MAXIMUM_BLOCK_WEIGHT);
    assert_eq!(m.steps.len(), 2);
}
