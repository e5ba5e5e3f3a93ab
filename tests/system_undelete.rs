use hedera_txn::wire;
use hedera_txn::{
    ContractId, EntityId, FileId, SystemUndeleteTransaction, SystemUndeleteTransactionData,
    UndeleteService,
};

#[test]
fn setting_one_target_clears_the_other() {
    let mut transaction = SystemUndeleteTransaction::new();
    transaction.contract_id(ContractId::from(5));
    assert_eq!(transaction.data.file_id, None);
    assert_eq!(transaction.data.contract_id, Some(ContractId::from(5)));

    transaction.file_id(FileId::from(9));
    assert_eq!(transaction.data.contract_id, None);
    assert_eq!(transaction.data.file_id, Some(FileId::from(9)));

    let w = transaction.data.to_wire();
    assert_eq!(
        w.id,
        Some(wire::UndeleteId::FileId(wire::Id { shard_num: 0, realm_num: 0, num: 9 }))
    );
}

#[test]
fn contract_wins_on_the_wire_when_both_are_set() {
    let data = SystemUndeleteTransactionData {
        file_id: Some(FileId::from(9)),
        contract_id: Some(ContractId::from(5)),
    };
    assert_eq!(
        data.to_wire().id,
        Some(wire::UndeleteId::ContractId(wire::Id { shard_num: 0, realm_num: 0, num: 5 }))
    );
}

#[test]
fn undelete_round_trip() {
    let mut transaction = SystemUndeleteTransaction::new();
    transaction.contract_id(EntityId { shard: 1, realm: 2, num: 3 });
    let decoded = SystemUndeleteTransactionData::from_wire(&transaction.data.to_wire());
    assert_eq!(decoded, transaction.data);

    let empty = SystemUndeleteTransaction::new().data;
    assert_eq!(empty.to_wire().id, None);
    assert_eq!(SystemUndeleteTransactionData::from_wire(&empty.to_wire()), empty);
}

#[test]
fn service_follows_the_target_and_defaults_to_contracts() {
    let mut transaction = SystemUndeleteTransaction::new();
    assert_eq!(transaction.data.service(), UndeleteService::SmartContract);
    transaction.file_id(FileId::from(9));
    assert_eq!(transaction.data.service(), UndeleteService::File);
    transaction.contract_id(ContractId::from(5));
    assert_eq!(transaction.data.service(), UndeleteService::SmartContract);
}

#[test]
fn checksums_are_checked_for_set_ids_only() {
    let mut transaction = SystemUndeleteTransaction::new();
    assert_eq!(transaction.data.checksum_targets(), Vec::<EntityId>::new());
    let reject_all = |_id: EntityId| -> Result<(), u64> { Err(1) };
    assert_eq!(transaction.data.validate_checksums(&reject_all), Ok(()));

    transaction.file_id(FileId::from(9));
    assert_eq!(transaction.data.checksum_targets(), vec![FileId::from(9)]);
    let reject_nine = |id: EntityId| -> Result<(), u64> {
        if id.num == 9 {
            Err(id.num)
        } else {
            Ok(())
        }
    };
    assert_eq!(transaction.data.validate_checksums(&reject_nine), Err(9));
}
