use hedera_txn::wire;
use hedera_txn::{
    AccountId, ContractId, ContractUpdateTransaction, ContractUpdateTransactionData, DecodeError,
    Duration, Key, PublicKey, Timestamp,
};

const ADMIN_KEY_BYTES: [u8; 32] = [
    0xd1, 0xad, 0x76, 0xed, 0x9b, 0x05, 0x7a, 0x3d, 0x3f, 0x2e, 0xa2, 0xd0, 0x3b, 0x41, 0xbc, 0xd7,
    0x9a, 0xea, 0xfd, 0x61, 0x1f, 0x94, 0x19, 0x24, 0xf0, 0xf6, 0xda, 0x52, 0x8a, 0xb0, 0x66, 0xfd,
];

fn expiry() -> Timestamp {
    Timestamp::from_unix_timestamp_nanos(1656352251277559886).unwrap()
}

fn scenario() -> ContractUpdateTransaction {
    let mut transaction = ContractUpdateTransaction::new();
    transaction
        .contract_id(ContractId::from(1001))
        .expires_at(expiry())
        .admin_key(Key::Single(PublicKey::Ed25519(ADMIN_KEY_BYTES)))
        .auto_renew_period(Duration::days(90))
        .contract_memo("A contract memo".to_string())
        .max_automatic_token_associations(1024)
        .auto_renew_account_id(AccountId::from(1002))
        .staked_account_id(AccountId::from(1003))
        .staked_node_id(7)
        .decline_staking_reward(true);
    transaction
}

#[test]
fn scenario_keeps_every_field_set() {
    let data = scenario().data;
    assert_eq!(data.contract_id, Some(ContractId::from(1001)));
    assert_eq!(data.expires_at, Some(Timestamp { seconds: 1656352251, nanos: 277559886 }));
    assert_eq!(data.auto_renew_period, Some(Duration { seconds: 7776000 }));
    assert_eq!(data.contract_memo.as_deref(), Some("A contract memo"));
    assert_eq!(data.max_automatic_token_associations, Some(1024));
    assert_eq!(data.auto_renew_account_id, Some(AccountId::from(1002)));
    assert_eq!(data.staked_account_id, Some(AccountId::from(1003)));
    assert_eq!(data.staked_node_id, Some(7));
    assert_eq!(data.decline_staking_reward, Some(true));
}

#[test]
fn scenario_encodes_only_the_staked_node() {
    let w = scenario().data.to_wire();
    assert_eq!(w.staked_id, Some(wire::StakedId::StakedNodeId(7)));
    assert_eq!(w.contract_id, Some(wire::Id { shard_num: 0, realm_num: 0, num: 1001 }));
    assert_eq!(w.expiration_time, Some(wire::Timestamp { seconds: 1656352251, nanos: 277559886 }));
    assert_eq!(w.auto_renew_period, Some(wire::Duration { seconds: 7776000 }));
    assert_eq!(w.max_automatic_token_associations, Some(1024));
    assert_eq!(w.auto_renew_account_id, Some(wire::Id { shard_num: 0, realm_num: 0, num: 1002 }));
    assert_eq!(w.decline_reward, Some(true));
    assert!(w.proxy_account_id.is_none());
    assert!(w.file_id.is_none());
    match &w.memo_field {
        Some(wire::MemoField::MemoWrapper(m)) => assert_eq!(m, "A contract memo"),
        other => panic!("unexpected memo field {:?}", other),
    }
    match &w.admin_key {
        Some(wire::Key { key: Some(wire::KeyKind::Ed25519(bytes)) }) => {
            assert_eq!(bytes.as_slice(), &ADMIN_KEY_BYTES[..])
        }
        other => panic!("unexpected admin key {:?}", other),
    }
}

#[test]
fn scenario_decodes_back_with_node_taking_precedence() {
    let data = scenario().data;
    let decoded = ContractUpdateTransactionData::from_wire(&data.to_wire()).unwrap();
    assert_eq!(decoded.contract_id, Some(ContractId::from(1001)));
    assert_eq!(decoded.expires_at, Some(expiry()));
    assert_eq!(decoded.admin_key, Some(Key::Single(PublicKey::Ed25519(ADMIN_KEY_BYTES))));
    assert_eq!(decoded.auto_renew_period, Some(Duration::days(90)));
    assert_eq!(decoded.contract_memo.as_deref(), Some("A contract memo"));
    assert_eq!(decoded.max_automatic_token_associations, Some(1024));
    assert_eq!(decoded.auto_renew_account_id, Some(AccountId::from(1002)));
    assert_eq!(decoded.staked_node_id, Some(7));
    assert_eq!(decoded.staked_account_id, None);
    assert_eq!(decoded.decline_staking_reward, Some(true));
}

#[test]
fn round_trip_with_staked_account_only() {
    let mut transaction = ContractUpdateTransaction::new();
    transaction.contract_id(ContractId::from(5)).staked_account_id(AccountId::from(1003));
    let w = transaction.data.to_wire();
    assert_eq!(
        w.staked_id,
        Some(wire::StakedId::StakedAccountId(wire::Id { shard_num: 0, realm_num: 0, num: 1003 }))
    );
    let decoded = ContractUpdateTransactionData::from_wire(&w).unwrap();
    assert_eq!(decoded, transaction.data);
}

#[test]
fn empty_update_encodes_nothing() {
    let data = ContractUpdateTransaction::new().data;
    let w = data.to_wire();
    assert!(w.contract_id.is_none());
    assert!(w.staked_id.is_none());
    assert!(w.memo_field.is_none());
    assert_eq!(ContractUpdateTransactionData::from_wire(&w).unwrap(), data);
}

#[test]
fn large_node_id_is_narrowed_to_a_negative_wire_number() {
    let mut transaction = ContractUpdateTransaction::new();
    transaction.staked_node_id(u64::MAX);
    let w = transaction.data.to_wire();
    assert_eq!(w.staked_id, Some(wire::StakedId::StakedNodeId(-1)));
    let decoded = ContractUpdateTransactionData::from_wire(&w).unwrap();
    assert_eq!(decoded.staked_node_id, Some(u64::MAX));
}

#[test]
fn deprecated_plain_memo_decodes_to_the_memo() {
    let mut w = ContractUpdateTransaction::new().data.to_wire();
    w.memo_field = Some(wire::MemoField::Memo("old style".to_string()));
    let decoded = ContractUpdateTransactionData::from_wire(&w).unwrap();
    assert_eq!(decoded.contract_memo.as_deref(), Some("old style"));
}

#[test]
fn bad_wire_expiry_and_key_are_decode_errors() {
    let mut w = ContractUpdateTransaction::new().data.to_wire();
    w.expiration_time = Some(wire::Timestamp { seconds: 1, nanos: -1 });
    assert_eq!(ContractUpdateTransactionData::from_wire(&w), Err(DecodeError::InvalidTimestamp));

    let mut w = ContractUpdateTransaction::new().data.to_wire();
    w.admin_key = Some(wire::Key { key: Some(wire::KeyKind::Ed25519(vec![1, 2, 3])) });
    assert_eq!(ContractUpdateTransactionData::from_wire(&w), Err(DecodeError::InvalidKeyLength));
}

#[test]
fn contract_update_checksums_cover_every_address() {
    let data = scenario().data;
    assert_eq!(
        data.checksum_targets(),
        vec![ContractId::from(1001), AccountId::from(1002), AccountId::from(1003)]
    );
    let reject_accounts = |id: hedera_txn::EntityId| -> Result<(), u64> {
        if id.num >= 1002 {
            Err(id.num)
        } else {
            Ok(())
        }
    };
    assert_eq!(data.validate_checksums(&reject_accounts), Err(1002));
}
