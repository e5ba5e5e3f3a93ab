use hedera_txn::wire;
use hedera_txn::{DecodeError, NftId, TokenId, TokenNftInfoQuery, TokenNftInfoQueryData};

#[test]
fn nft_query_encodes_token_and_serial() {
    let mut query = TokenNftInfoQuery::new();
    query.nft_id(NftId { token_id: TokenId::from(77), serial: 3 });
    let w = query.data.to_wire();
    assert_eq!(
        w.nft_id,
        Some(wire::NftId {
            token_id: Some(wire::Id { shard_num: 0, realm_num: 0, num: 77 }),
            serial_number: 3,
        })
    );
    assert_eq!(TokenNftInfoQueryData::from_wire(&w), Ok(query.data));
}

#[test]
fn nft_without_token_is_a_decode_error() {
    let w = wire::TokenGetNftInfoQuery {
        nft_id: Some(wire::NftId { token_id: None, serial_number: 3 }),
    };
    assert_eq!(TokenNftInfoQueryData::from_wire(&w), Err(DecodeError::MissingField));
    let empty = wire::TokenGetNftInfoQuery { nft_id: None };
    assert_eq!(TokenNftInfoQueryData::from_wire(&empty), Ok(TokenNftInfoQueryData { nft_id: None }));
}

#[test]
fn nft_query_checksum_covers_the_token() {
    let reject = |id: hedera_txn::EntityId| -> Result<(), u64> { Err(id.num) };
    let mut query = TokenNftInfoQuery::new();
    assert_eq!(query.data.validate_checksums(&reject), Ok(()));
    query.nft_id(NftId { token_id: TokenId::from(77), serial: 3 });
    assert_eq!(query.data.validate_checksums(&reject), Err(77));
}
