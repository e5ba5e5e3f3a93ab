use hedera_txn::wire;
use hedera_txn::{
    AnyQueryData, AnyTransactionData, ContractId, ContractUpdateTransaction, DecodeError, Duration,
    EntityId, Hbar, Key, PublicKey, SystemUndeleteTransaction, Timestamp, TokenCreateTransaction,
    TokenNftInfoQuery,
};

#[test]
fn timestamp_from_nanos() {
    assert_eq!(
        Timestamp::from_unix_timestamp_nanos(1656352251277559886),
        Some(Timestamp { seconds: 1656352251, nanos: 277559886 })
    );
    assert_eq!(
        Timestamp::from_unix_timestamp_nanos(-1),
        Some(Timestamp { seconds: -1, nanos: 999_999_999 })
    );
    assert_eq!(Timestamp::from_unix_timestamp_nanos(0), Some(Timestamp { seconds: 0, nanos: 0 }));
    let too_late = (i64::MAX as i128 + 1) * 1_000_000_000;
    assert_eq!(Timestamp::from_unix_timestamp_nanos(too_late), None);
    assert!(Timestamp::from_unix_timestamp_nanos(too_late - 1).is_some());
}

#[test]
fn timestamp_wire_nanos_must_be_in_range() {
    assert_eq!(
        Timestamp::from_wire(wire::Timestamp { seconds: 3, nanos: 1_000_000_000 }),
        Err(DecodeError::InvalidTimestamp)
    );
    assert_eq!(
        Timestamp::from_wire(wire::Timestamp { seconds: 3, nanos: 999_999_999 }),
        Ok(Timestamp { seconds: 3, nanos: 999_999_999 })
    );
}

#[test]
fn days_are_whole_seconds() {
    assert_eq!(Duration::days(90).seconds, 7_776_000);
    assert_eq!(Duration::days(1).to_wire(), wire::Duration { seconds: 86_400 });
}

#[test]
fn entity_ids_narrow_and_widen() {
    let id = EntityId { shard: u64::MAX, realm: 1, num: 1 << 63 };
    let w = id.to_wire();
    assert_eq!(w, wire::Id { shard_num: -1, realm_num: 1, num: i64::MIN });
    assert_eq!(EntityId::from_wire(w), id);
    assert_eq!(ContractId::from(1001), EntityId::from_num(1001));
}

#[test]
fn keys_round_trip_and_check_lengths() {
    let keys = [
        Key::Single(PublicKey::Ed25519([7; 32])),
        Key::Single(PublicKey::EcdsaSecp256k1([8; 33])),
        Key::ContractId(EntityId::from_num(3)),
        Key::DelegatableContractId(EntityId::from_num(4)),
    ];
    for key in keys {
        assert_eq!(Key::from_wire(&key.to_wire()), Ok(key));
    }
    let short = wire::Key { key: Some(wire::KeyKind::EcdsaSecp256k1(vec![0; 32])) };
    assert_eq!(Key::from_wire(&short), Err(DecodeError::InvalidKeyLength));
    assert_eq!(Key::from_wire(&wire::Key { key: None }), Err(DecodeError::MissingField));
}

#[test]
fn any_transaction_from_each_kind() {
    let data = ContractUpdateTransaction::new().data;
    assert_eq!(AnyTransactionData::from(data.clone()), AnyTransactionData::ContractUpdate(data));
    let undelete = SystemUndeleteTransaction::new().data;
    assert_eq!(AnyTransactionData::from(undelete), AnyTransactionData::SystemUndelete(undelete));
    let query = TokenNftInfoQuery::new().data;
    assert_eq!(AnyQueryData::from(query), AnyQueryData::TokenNftInfo(query));
}

#[test]
fn token_create_default_fee_is_forty_hbar() {
    let transaction = TokenCreateTransaction::new();
    assert_eq!(transaction.data.default_max_transaction_fee(), Hbar { tinybars: 4_000_000_000 });
    assert_eq!(Hbar::from_hbars(-2).tinybars, -200_000_000);
}

#[test]
fn timestamp_nanos_round_trip() {
    let t = Timestamp::from_unix_timestamp_nanos(-1_500_000_001).unwrap();
    assert_eq!(t, Timestamp { seconds: -2, nanos: 499_999_999 });
    assert_eq!(t.unix_timestamp_nanos(), -1_500_000_001);
}
