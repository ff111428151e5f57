//! The migration of the ledger's records on chosen storage.

use precompile_dapps_staking::migrations::{
    migrate, post_migrate, pre_migrate, AccountLedger, MigrationFault, LedgerStorage, StorageAccess,
    UnlockingChunk,
};

fn account(index: u8) -> [u8; 32] {
    [index; 32]
}

type Storage = LedgerStorage<[u8; 32]>;

fn first_format() -> Storage {
    LedgerStorage::V1_0_0 { ledger: vec![(account(1), 100), (account(2), 5), (account(3), 70)] }
}

#[test]
fn migration_translates_every_record() {
    let (storage, access) = migrate(first_format());
    assert_eq!(
        storage,
        LedgerStorage::V2_0_0 {
            ledger: vec![
                (account(1), AccountLedger { locked: 100, unbonding_info: vec![] }),
                (account(2), AccountLedger { locked: 5, unbonding_info: vec![] }),
                (account(3), AccountLedger { locked: 70, unbonding_info: vec![] }),
            ]
        }
    );
    assert_eq!(access, StorageAccess { reads: 3, writes: 4 });
}

#[test]
fn migration_of_no_records_writes_the_marker() {
    let (storage, access) = migrate(Storage::V1_0_0 { ledger: vec![] });
    assert_eq!(storage, Storage::V2_0_0 { ledger: vec![] });
    assert_eq!(access, StorageAccess { reads: 0, writes: 1 });
}

#[test]
fn migration_twice_is_migration_once() {
    let (once, _) = migrate(first_format());
    let (twice, access) = migrate(once.clone());
    assert_eq!(twice, once);
    assert_eq!(access, StorageAccess { reads: 1, writes: 0 });
}

#[test]
fn migration_leaves_the_second_format_alone() {
    let storage = LedgerStorage::V2_0_0 {
        ledger: vec![(
            account(9),
            AccountLedger {
                locked: 1,
                unbonding_info: vec![UnlockingChunk { amount: 4, unlock_era: 8 }],
            },
        )],
    };
    let (after, access) = migrate(storage.clone());
    assert_eq!(after, storage);
    assert_eq!(access, StorageAccess { reads: 1, writes: 0 });
}

#[test]
fn migration_keeps_a_record_with_nothing_locked() {
    let (storage, access) = migrate(LedgerStorage::V1_0_0 { ledger: vec![(account(1), 0)] });
    assert_eq!(
        storage,
        LedgerStorage::V2_0_0 {
            ledger: vec![(account(1), AccountLedger { locked: 0, unbonding_info: vec![] })]
        }
    );
    assert_eq!(access, StorageAccess { reads: 1, writes: 2 });
}

#[test]
fn checks_pass_around_a_migration() {
    let storage = first_format();
    let init_locked = pre_migrate(&storage).unwrap();
    assert_eq!(init_locked, vec![100, 5, 70]);
    let (storage, _) = migrate(storage);
    assert_eq!(post_migrate(&storage, &init_locked), Ok(()));
}

#[test]
fn checks_pass_where_a_record_had_nothing_locked() {
    let storage = Storage::V1_0_0 { ledger: vec![(account(1), 0)] };
    let init_locked = pre_migrate(&storage).unwrap();
    assert_eq!(init_locked, vec![0]);
    let (storage, _) = migrate(storage);
    assert_eq!(post_migrate(&storage, &init_locked), Ok(()));

    let storage =
        Storage::V1_0_0 { ledger: vec![(account(1), 3), (account(2), 0), (account(3), 9)] };
    let init_locked = pre_migrate(&storage).unwrap();
    let (storage, _) = migrate(storage);
    assert_eq!(post_migrate(&storage, &init_locked), Ok(()));
}

#[test]
fn checks_pass_on_no_records() {
    let storage = Storage::V1_0_0 { ledger: vec![] };
    let init_locked = pre_migrate(&storage).unwrap();
    assert!(init_locked.is_empty());
    let (storage, _) = migrate(storage);
    assert_eq!(post_migrate(&storage, &init_locked), Ok(()));
}

#[test]
fn pre_check_wants_the_first_format() {
    let (storage, _) = migrate(first_format());
    assert_eq!(pre_migrate(&storage), Err(MigrationFault::UnexpectedVersion));
}

#[test]
fn post_check_wants_the_second_format() {
    assert_eq!(
        post_migrate(&first_format(), &[100, 5, 70]),
        Err(MigrationFault::UnexpectedVersion)
    );
}

#[test]
fn post_check_wants_the_count_of_before() {
    let (storage, _) = migrate(first_format());
    assert_eq!(post_migrate(&storage, &[100, 5]), Err(MigrationFault::LedgerCountChanged));
    assert_eq!(post_migrate(&storage, &[100, 5, 70, 1]), Err(MigrationFault::LedgerCountChanged));
    assert_eq!(post_migrate(&storage, &[]), Err(MigrationFault::LedgerCountChanged));
}

#[test]
fn post_check_wants_what_was_locked_to_stay_locked() {
    let storage = Storage::V2_0_0 {
        ledger: vec![
            (account(1), AccountLedger { locked: 3, unbonding_info: vec![] }),
            (account(2), AccountLedger { locked: 0, unbonding_info: vec![] }),
        ],
    };
    // The second record had 5 locked and has nothing locked now.
    assert_eq!(post_migrate(&storage, &[3, 5]), Err(MigrationFault::NothingLocked));
    // It had nothing locked before: nothing is wrong.
    assert_eq!(post_migrate(&storage, &[3, 0]), Ok(()));
    // A record that had nothing locked may have something locked.
    assert_eq!(post_migrate(&storage, &[0, 0]), Ok(()));
}

#[test]
fn post_check_wants_nothing_unbonding() {
    let storage = Storage::V2_0_0 {
        ledger: vec![
            (account(1), AccountLedger { locked: 3, unbonding_info: vec![] }),
            (
                account(2),
                AccountLedger {
                    locked: 3,
                    unbonding_info: vec![UnlockingChunk { amount: 1, unlock_era: 2 }],
                },
            ),
            (account(3), AccountLedger { locked: 0, unbonding_info: vec![] }),
        ],
    };
    // The records are tested in their order: the second is the first at
    // fault, whatever the third had locked.
    assert_eq!(post_migrate(&storage, &[3, 3, 7]), Err(MigrationFault::UnbondingNotEmpty));
    assert_eq!(post_migrate(&storage, &[3, 3, 0]), Err(MigrationFault::UnbondingNotEmpty));
    // Of one record, what is locked is tested before what unbonds.
    let storage = Storage::V2_0_0 {
        ledger: vec![(
            account(1),
            AccountLedger {
                locked: 0,
                unbonding_info: vec![UnlockingChunk { amount: 1, unlock_era: 2 }],
            },
        )],
    };
    assert_eq!(post_migrate(&storage, &[4]), Err(MigrationFault::NothingLocked));
    assert_eq!(post_migrate(&storage, &[0]), Err(MigrationFault::UnbondingNotEmpty));
}
