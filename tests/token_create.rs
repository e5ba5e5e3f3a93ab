use hedera_txn::wire;
use hedera_txn::{
    AccountId, AnyCustomFee, AnyCustomFeeKind, DecodeError, Duration, EntityId,
    FeeAssessmentMethod, FixedFee, FractionalFee, Key, PublicKey, RoyaltyFee, Timestamp,
    TokenCreateTransaction, TokenCreateTransactionData, TokenId, TokenSupplyType, TokenType,
};

fn fees() -> Vec<AnyCustomFee> {
    vec![
        AnyCustomFee {
            fee: AnyCustomFeeKind::Fixed(FixedFee { amount: 10, denominating_token_id: None }),
            fee_collector_account_id: Some(AccountId::from(4)),
            all_collectors_are_exempt: false,
        },
        AnyCustomFee {
            fee: AnyCustomFeeKind::Fractional(FractionalFee {
                numerator: 1,
                denominator: 20,
                minimum_amount: 1,
                maximum_amount: 100,
                assessment_method: FeeAssessmentMethod::Exclusive,
            }),
            fee_collector_account_id: None,
            all_collectors_are_exempt: true,
        },
        AnyCustomFee {
            fee: AnyCustomFeeKind::Royalty(RoyaltyFee {
                numerator: 1,
                denominator: 10,
                fallback_fee: Some(FixedFee {
                    amount: 5,
                    denominating_token_id: Some(TokenId::from(8)),
                }),
            }),
            fee_collector_account_id: Some(AccountId::from(4)),
            all_collectors_are_exempt: false,
        },
    ]
}

fn full() -> TokenCreateTransaction {
    let mut transaction = TokenCreateTransaction::new();
    transaction
        .name("ffff".to_string())
        .symbol("F".to_string())
        .decimals(3)
        .initial_supply(1_000_000)
        .treasury_account_id(AccountId::from(456))
        .admin_key(Key::Single(PublicKey::Ed25519([1; 32])))
        .kyc_key(Key::Single(PublicKey::EcdsaSecp256k1([2; 33])))
        .freeze_key(Key::ContractId(EntityId { shard: 0, realm: 0, num: 9 }))
        .wipe_key(Key::DelegatableContractId(EntityId { shard: 0, realm: 0, num: 10 }))
        .supply_key(Key::Single(PublicKey::Ed25519([3; 32])))
        .freeze_default(true)
        .auto_renew_account_id(AccountId::from(457))
        .token_memo("a memo".to_string())
        .token_type(TokenType::FungibleCommon)
        .token_supply_type(TokenSupplyType::Finite)
        .max_supply(5_000_000)
        .fee_schedule_key(Key::Single(PublicKey::Ed25519([4; 32])))
        .custom_fees(fees())
        .pause_key(Key::Single(PublicKey::Ed25519([5; 32])));
    transaction
}

#[test]
fn defaults() {
    let transaction = TokenCreateTransaction::new();
    assert_eq!(transaction.get_name(), "");
    assert_eq!(transaction.get_symbol(), "");
    assert_eq!(transaction.get_decimals(), 0);
    assert_eq!(transaction.get_initial_supply(), 0);
    assert_eq!(transaction.get_treasury_account_id(), None);
    assert_eq!(transaction.get_admin_key(), None);
    assert!(!transaction.get_freeze_default());
    assert_eq!(transaction.get_expiration_time(), None);
    assert_eq!(transaction.get_auto_renew_period(), Some(Duration::days(90)));
    assert_eq!(transaction.get_auto_renew_period(), Some(Duration { seconds: 7_776_000 }));
    assert_eq!(transaction.get_token_memo(), "");
    assert_eq!(transaction.get_token_type(), TokenType::FungibleCommon);
    assert_eq!(transaction.get_token_supply_type(), TokenSupplyType::Infinite);
    assert_eq!(transaction.get_max_supply(), 0);
    assert!(transaction.get_custom_fees().is_empty());
    assert_eq!(transaction.get_pause_key(), None);
}

#[test]
fn setters_and_getters_agree() {
    let transaction = full();
    assert_eq!(transaction.get_name(), "ffff");
    assert_eq!(transaction.get_symbol(), "F");
    assert_eq!(transaction.get_decimals(), 3);
    assert_eq!(transaction.get_initial_supply(), 1_000_000);
    assert_eq!(transaction.get_treasury_account_id(), Some(AccountId::from(456)));
    assert_eq!(transaction.get_admin_key(), Some(&Key::Single(PublicKey::Ed25519([1; 32]))));
    assert_eq!(transaction.get_token_supply_type(), TokenSupplyType::Finite);
    assert_eq!(transaction.get_max_supply(), 5_000_000);
    assert_eq!(transaction.get_custom_fees(), &fees()[..]);
    assert_eq!(transaction.get_token_memo(), "a memo");
}

#[test]
fn expiry_clears_the_auto_renew_period() {
    let mut transaction = TokenCreateTransaction::new();
    let at = Timestamp { seconds: 1_700_000_000, nanos: 5 };
    transaction.auto_renew_period(Duration::days(30)).expiration_time(at);
    assert_eq!(transaction.get_expiration_time(), Some(at));
    assert_eq!(transaction.get_auto_renew_period(), None);
    let w = transaction.data.to_wire();
    assert_eq!(w.expiry, Some(wire::Timestamp { seconds: 1_700_000_000, nanos: 5 }));
    assert_eq!(w.auto_renew_period, None);
}

#[test]
fn token_create_wire_fields() {
    let w = full().data.to_wire();
    assert_eq!(w.name, "ffff");
    assert_eq!(w.memo, "a memo");
    assert_eq!(w.treasury, Some(wire::Id { shard_num: 0, realm_num: 0, num: 456 }));
    assert_eq!(w.token_type, 0);
    assert_eq!(w.supply_type, 1);
    assert_eq!(w.max_supply, 5_000_000);
    assert_eq!(w.auto_renew_period, Some(wire::Duration { seconds: 7_776_000 }));
    assert_eq!(w.custom_fees.len(), 3);
    assert_eq!(
        w.custom_fees[1].fee,
        Some(wire::Fee::FractionalFee(wire::FractionalFee {
            fractional_amount: Some(wire::Fraction { numerator: 1, denominator: 20 }),
            minimum_amount: 1,
            maximum_amount: 100,
            net_of_transfers: true,
        }))
    );
}

#[test]
fn token_create_round_trip() {
    let data = full().data;
    let decoded = TokenCreateTransactionData::from_wire(&data.to_wire()).unwrap();
    assert_eq!(decoded, data);

    let mut nft = TokenCreateTransaction::new();
    nft.token_type(TokenType::NonFungibleUnique).expiration_time(Timestamp { seconds: -3, nanos: 1 });
    let decoded = TokenCreateTransactionData::from_wire(&nft.data.to_wire()).unwrap();
    assert_eq!(decoded, nft.data);
}

#[test]
fn unknown_enum_numbers_decode_to_defaults() {
    let mut w = full().data.to_wire();
    w.token_type = 42;
    w.supply_type = -7;
    let decoded = TokenCreateTransactionData::from_wire(&w).unwrap();
    assert_eq!(decoded.token_type, TokenType::FungibleCommon);
    assert_eq!(decoded.token_supply_type, TokenSupplyType::Infinite);

    w.token_type = 1;
    w.supply_type = 1;
    let decoded = TokenCreateTransactionData::from_wire(&w).unwrap();
    assert_eq!(decoded.token_type, TokenType::NonFungibleUnique);
    assert_eq!(decoded.token_supply_type, TokenSupplyType::Finite);
}

#[test]
fn first_bad_custom_fee_is_the_error() {
    let mut w = full().data.to_wire();
    w.custom_fees[1].fee = None;
    assert_eq!(TokenCreateTransactionData::from_wire(&w), Err(DecodeError::MissingField));

    let mut w = full().data.to_wire();
    w.custom_fees[2].fee = Some(wire::Fee::RoyaltyFee(wire::RoyaltyFee {
        exchange_value_fraction: None,
        fallback_fee: None,
    }));
    assert_eq!(TokenCreateTransactionData::from_wire(&w), Err(DecodeError::MissingField));

    let mut w = full().data.to_wire();
    w.pause_key = Some(wire::Key { key: None });
    assert_eq!(TokenCreateTransactionData::from_wire(&w), Err(DecodeError::MissingField));
}

#[test]
fn token_checksums_stop_at_first_failure() {
    let data = full().data;
    assert_eq!(
        data.checksum_targets(),
        vec![
            AccountId::from(456),
            AccountId::from(457),
            AccountId::from(4),
            AccountId::from(4),
            TokenId::from(8),
        ]
    );
    let reject_all = |id: EntityId| -> Result<(), u64> { Err(id.num) };
    assert_eq!(data.validate_checksums(&reject_all), Err(456));
    let accept_all = |_id: EntityId| -> Result<(), u64> { Ok(()) };
    assert_eq!(data.validate_checksums(&accept_all), Ok(()));
}

#[test]
fn custom_fee_addresses_are_checksum_targets() {
    let mut transaction = TokenCreateTransaction::new();
    transaction.custom_fees(vec![AnyCustomFee {
        fee: AnyCustomFeeKind::Fixed(FixedFee {
            amount: 1,
            denominating_token_id: Some(TokenId::from(31)),
        }),
        fee_collector_account_id: Some(AccountId::from(30)),
        all_collectors_are_exempt: false,
    }]);
    assert_eq!(
        transaction.data.checksum_targets(),
        vec![AccountId::from(30), TokenId::from(31)]
    );
    let reject_all = |id: EntityId| -> Result<(), u64> { Err(id.num) };
    assert_eq!(transaction.data.validate_checksums(&reject_all), Err(30));
    let reject_token = |id: EntityId| -> Result<(), u64> {
        if id.num == 31 {
            Err(id.num)
        } else {
            Ok(())
        }
    };
    assert_eq!(transaction.data.validate_checksums(&reject_token), Err(31));

    let mut fractional = TokenCreateTransaction::new();
    fractional.custom_fees(vec![AnyCustomFee {
        fee: AnyCustomFeeKind::Fractional(FractionalFee {
            numerator: 1,
            denominator: 2,
            minimum_amount: 0,
            maximum_amount: 0,
            assessment_method: FeeAssessmentMethod::Inclusive,
        }),
        fee_collector_account_id: None,
        all_collectors_are_exempt: false,
    }]);
    assert_eq!(fractional.data.validate_checksums(&reject_all), Ok(()));
}
