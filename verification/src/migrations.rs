//! The upgrade of the ledger's records from the first storage format to the
//! second.
//!
//! In the first format a record is the amount that an account has locked. In
//! the second it is that amount together with the schedule by which the
//! account unbonds, which starts empty. The format marker and the records are
//! one value here: the marker is the variant, so records and marker cannot
//! disagree.

use crate::staking::{Balance, EraIndex};
use vstd::prelude::*;

verus! {

/// The storage formats, oldest first.
#[allow(non_camel_case_types)]
#[derive(Clone, Copy, Debug, PartialEq, Eq)]
pub enum Version {
    V1_0_0,
    V2_0_0,
}

/// An amount that unbonds, and the era from which it can be withdrawn.
#[derive(Clone, Copy, Debug, PartialEq, Eq)]
pub struct UnlockingChunk {
    pub amount: Balance,
    pub unlock_era: EraIndex,
}

/// A record of the second format.
#[derive(Clone, Debug, PartialEq, Eq)]
pub struct AccountLedger {
    pub locked: Balance,
    pub unbonding_info: Vec<UnlockingChunk>,
}

/// The records of all accounts, in the format that the marker names. No
/// account has two records.
#[allow(non_camel_case_types)]
#[allow(inconsistent_fields)]
#[derive(Clone, Debug, PartialEq, Eq)]
pub enum LedgerStorage<AccountId> {
    V1_0_0 { ledger: Vec<(AccountId, Balance)> },
    V2_0_0 { ledger: Vec<(AccountId, AccountLedger)> },
}

/// How often a run of the migration reads and writes storage.
#[derive(Clone, Copy, Debug, PartialEq, Eq)]
pub struct StorageAccess {
    pub reads: u64,
    pub writes: u64,
}

/// What a check before or after the migration found wrong.
#[derive(Clone, Copy, Debug, PartialEq, Eq)]
pub enum MigrationFault {
    /// The format marker is not the one that the check expects.
    UnexpectedVersion,
    /// The number of records is not what it was before the migration.
    LedgerCountChanged,
    /// A record that had something locked before the migration has nothing
    /// locked.
    NothingLocked,
    /// A record has an unbonding schedule that is not empty.
    UnbondingNotEmpty,
}

/// A record of the second format as the contracts speak of it.
pub struct AccountLedgerView {
    pub locked: Balance,
    pub unbonding_info: Seq<UnlockingChunk>,
}

/// The storage as the contracts speak of it.
#[allow(non_camel_case_types)]
#[allow(inconsistent_fields)]
pub enum LedgerStorageView<AccountId> {
    V1_0_0 { ledger: Seq<(AccountId, Balance)> },
    V2_0_0 { ledger: Seq<(AccountId, AccountLedgerView)> },
}

impl View for AccountLedger {
    type V = AccountLedgerView;

    open spec fn view(&self) -> AccountLedgerView {
        AccountLedgerView { locked: self.locked, unbonding_info: self.unbonding_info@ }
    }
}

/// The records of the second format as the contracts speak of them.
pub open spec fn ledger_view<AccountId>(ledger: Seq<(AccountId, AccountLedger)>) -> Seq<
    (AccountId, AccountLedgerView),
> {
    Seq::new(ledger.len(), |i: int| (ledger[i].0, ledger[i].1@))
}

impl<AccountId> View for LedgerStorage<AccountId> {
    type V = LedgerStorageView<AccountId>;

    open spec fn view(&self) -> LedgerStorageView<AccountId> {
        match *self {
            LedgerStorage::V1_0_0 { ledger } => LedgerStorageView::V1_0_0 { ledger: ledger@ },
            LedgerStorage::V2_0_0 { ledger } => LedgerStorageView::V2_0_0 {
                ledger: ledger_view(ledger@),
            },
        }
    }
}

/// The record of the second format that takes the place of a record of the
/// first: the same amount locked, and nothing unbonding.
pub open spec fn translated<AccountId>(record: (AccountId, Balance)) -> (
    AccountId,
    AccountLedgerView,
) {
    (record.0, AccountLedgerView { locked: record.1, unbonding_info: Seq::empty() })
}

/// The amounts that the records of the first format have locked, in the
/// order of the records.
pub open spec fn locked_amounts<AccountId>(ledger: Seq<(AccountId, Balance)>) -> Seq<Balance> {
    Seq::new(ledger.len(), |i: int| ledger[i].1)
}

/// The first fault among the records from `from` on, for the check after
/// the migration, where `init_locked` holds for each record the amount that
/// it had locked before. A record is at fault where it had something locked
/// and has nothing locked now, or where something unbonds. A record that had
/// nothing locked has nothing locked now, and that is in order.
pub open spec fn first_fault<AccountId>(
    ledger: Seq<(AccountId, AccountLedgerView)>,
    init_locked: Seq<Balance>,
    from: int,
) -> Option<MigrationFault>
    decreases ledger.len() - from,
{
    if from < 0 || from >= ledger.len() {
        None
    } else if init_locked[from] != 0 && ledger[from].1.locked == 0 {
        Some(MigrationFault::NothingLocked)
    } else if ledger[from].1.unbonding_info.len() != 0 {
        Some(MigrationFault::UnbondingNotEmpty)
    } else {
        first_fault(ledger, init_locked, from + 1)
    }
}

impl<AccountId> LedgerStorageView<AccountId> {
    pub open spec fn version(self) -> Version {
        match self {
            LedgerStorageView::V1_0_0 { .. } => Version::V1_0_0,
            LedgerStorageView::V2_0_0 { .. } => Version::V2_0_0,
        }
    }

    /// The number of records.
    pub open spec fn ledger_count(self) -> nat {
        match self {
            LedgerStorageView::V1_0_0 { ledger } => ledger.len(),
            LedgerStorageView::V2_0_0 { ledger } => ledger.len(),
        }
    }

    /// The accounts that have a record, in the order of the records.
    pub open spec fn accounts(self) -> Seq<AccountId> {
        match self {
            LedgerStorageView::V1_0_0 { ledger } => Seq::new(ledger.len(), |i: int| ledger[i].0),
            LedgerStorageView::V2_0_0 { ledger } => Seq::new(ledger.len(), |i: int| ledger[i].0),
        }
    }

    /// No account has two records.
    pub open spec fn wf(self) -> bool {
        forall|i: int, j: int|
            0 <= i < j < self.accounts().len() ==> self.accounts()[i] != self.accounts()[j]
    }

    /// The storage after the migration: records of the first format are
    /// translated one by one and the marker advances; storage that is past
    /// the first format stays as it is.
    pub open spec fn migrated(self) -> LedgerStorageView<AccountId> {
        match self {
            LedgerStorageView::V1_0_0 { ledger } => LedgerStorageView::V2_0_0 {
                ledger: Seq::new(ledger.len(), |i: int| translated(ledger[i])),
            },
            LedgerStorageView::V2_0_0 { .. } => self,
        }
    }

    /// What the migration costs: from the first format a read of each
    /// record, a write of each record and a write of the marker; else the
    /// one read of the marker.
    pub open spec fn migration_access(self) -> (nat, nat) {
        match self {
            LedgerStorageView::V1_0_0 { ledger } => (ledger.len(), ledger.len() + 1),
            LedgerStorageView::V2_0_0 { .. } => (1, 0),
        }
    }

    /// What the check before the migration says: on the first format, the
    /// amount that each record has locked, for the check after.
    pub open spec fn pre_check(self) -> Result<Seq<Balance>, MigrationFault> {
        match self {
            LedgerStorageView::V1_0_0 { ledger } => Ok(locked_amounts(ledger)),
            LedgerStorageView::V2_0_0 { .. } => Err(MigrationFault::UnexpectedVersion),
        }
    }

    /// What the check after the migration says, given the amounts that the
    /// records had locked before it: the marker is tested first, then the
    /// number of records, then the records in their order.
    pub open spec fn post_check(self, init_locked: Seq<Balance>) -> Result<(), MigrationFault> {
        match self {
            LedgerStorageView::V1_0_0 { .. } => Err(MigrationFault::UnexpectedVersion),
            LedgerStorageView::V2_0_0 { ledger } => if ledger.len() != init_locked.len() {
                Err(MigrationFault::LedgerCountChanged)
            } else {
                match first_fault(ledger, init_locked, 0) {
                    Some(fault) => Err(fault),
                    None => Ok(()),
                }
            },
        }
    }
}

/// What a run of the migration costs where the marker alone decides it:
/// past the first format nothing is done but the one read of the marker.
/// On the first format the records decide, and `migrate` says the cost.
pub fn skipped(version: Version) -> (access: Option<StorageAccess>)
    ensures
        access == match version {
            Version::V1_0_0 => None,
            Version::V2_0_0 => Some((StorageAccess { reads: 1, writes: 0 })),
        },
{
    match version {
        Version::V1_0_0 => None,
        Version::V2_0_0 => Some(StorageAccess { reads: 1, writes: 0 }),
    }
}

/// Checks that the storage is in the first format, and notes the amount
/// that each record has locked, for the check after the migration. There are
/// as many amounts as records.
pub fn pre_migrate<AccountId>(storage: &LedgerStorage<AccountId>) -> (checked: Result<
    Vec<Balance>,
    MigrationFault,
>)
    ensures
        match checked {
            Ok(init_locked) => storage@.pre_check() == Ok::<Seq<Balance>, MigrationFault>(
                init_locked@,
            ),
            Err(fault) => storage@.pre_check() == Err::<Seq<Balance>, MigrationFault>(fault),
        },
{
    match storage {
        LedgerStorage::V1_0_0 { ledger } => {
            let mut init_locked: Vec<Balance> = Vec::new();
            let mut index: usize = 0;
            while index < ledger.len()
                invariant
                    index <= ledger@.len(),
                    init_locked@ == locked_amounts(ledger@.subrange(0, index as int)),
                decreases ledger@.len() - index,
            {
                init_locked.push(ledger[index].1);
                index += 1;
                assert(init_locked@ =~= locked_amounts(ledger@.subrange(0, index as int)));
            }
            assert(ledger@.subrange(0, index as int) =~= ledger@);
            Ok(init_locked)
        },
        LedgerStorage::V2_0_0 { .. } => Err(MigrationFault::UnexpectedVersion),
    }
}

/// Brings the storage to the second format and says how often storage was
/// read and written. Storage that is past the first format is left as it
/// is, at the cost of the one read of the marker.
pub fn migrate<AccountId>(storage: LedgerStorage<AccountId>) -> (migrated: (
    LedgerStorage<AccountId>,
    StorageAccess,
))
    requires
        storage@.ledger_count() < u64::MAX,
    ensures
        migrated.0@ == storage@.migrated(),
        (migrated.1.reads as nat, migrated.1.writes as nat) == storage@.migration_access(),
{
    match storage {
        LedgerStorage::V2_0_0 { ledger } => {
            (LedgerStorage::V2_0_0 { ledger }, StorageAccess { reads: 1, writes: 0 })
        },
        LedgerStorage::V1_0_0 { ledger } => {
            let ledger_size = ledger.len() as u64;
            let ghost records = ledger@;
            let mut translated_ledger: Vec<(AccountId, AccountLedger)> = Vec::new();
            for record in iter: ledger
                invariant
                    iter.seq() == records,
                    translated_ledger@.len() == iter.index(),
                    forall|i: int|
                        0 <= i < iter.index() ==> ledger_view(translated_ledger@)[i] == translated(
                            records[i],
                        ),
            {
                let (account, value) = record;
                let unbonding_info: Vec<UnlockingChunk> = Vec::new();
                let ghost before = translated_ledger@;
                translated_ledger.push((account, AccountLedger { locked: value, unbonding_info }));
                proof {
                    assert forall|i: int| 0 <= i <= iter.index() implies ledger_view(
                        translated_ledger@,
                    )[i] == translated(records[i]) by {
                        if i < iter.index() {
                            assert(translated_ledger@[i] == before[i]);
                            assert(ledger_view(before)[i] == translated(records[i]));
                        } else {
                            assert(ledger_view(translated_ledger@)[i].1.unbonding_info
                                =~= Seq::empty());
                        }
                    }
                }
            }
            let migrated = LedgerStorage::V2_0_0 { ledger: translated_ledger };
            proof {
                assert(migrated@->V2_0_0_ledger =~= storage@.migrated()->V2_0_0_ledger);
            }
            (migrated, StorageAccess { reads: ledger_size, writes: ledger_size + 1 })
        },
    }
}

/// Checks the storage after the migration against the amounts that the
/// records had locked before it: the storage is in the second format, it has
/// as many records as before, each record that had something locked has
/// something locked, and no record has anything unbonding.
pub fn post_migrate<AccountId>(
    storage: &LedgerStorage<AccountId>,
    init_locked: &[Balance],
) -> (checked: Result<(), MigrationFault>)
    ensures
        checked == storage@.post_check(init_locked@),
{
    match storage {
        LedgerStorage::V1_0_0 { .. } => Err(MigrationFault::UnexpectedVersion),
        LedgerStorage::V2_0_0 { ledger } => {
            if ledger.len() != init_locked.len() {
                return Err(MigrationFault::LedgerCountChanged);
            }
            let ghost records = ledger_view(ledger@);
            let mut index: usize = 0;
            while index < ledger.len()
                invariant
                    index <= ledger@.len(),
                    records == ledger_view(ledger@),
                    storage@ == (LedgerStorageView::<AccountId>::V2_0_0 { ledger: records }),
                    records.len() == init_locked@.len(),
                    first_fault(records, init_locked@, 0) == first_fault(
                        records,
                        init_locked@,
                        index as int,
                    ),
                decreases ledger@.len() - index,
            {
                let acc_ledger = &ledger[index].1;
                assert(records[index as int].1 == acc_ledger@);
                if init_locked[index] != 0 && acc_ledger.locked == 0 {
                    return Err(MigrationFault::NothingLocked);
                }
                if acc_ledger.unbonding_info.len() != 0 {
                    return Err(MigrationFault::UnbondingNotEmpty);
                }
                index += 1;
            }
            Ok(())
        },
    }
}

/// Running the migration twice is running it once: the second run finds
/// the storage past the first format, leaves it as it is and costs one read.
pub proof fn lemma_migrate_idempotent<AccountId>(storage: LedgerStorageView<AccountId>)
    ensures
        storage.migrated().version() == Version::V2_0_0,
        storage.migrated().migrated() == storage.migrated(),
        storage.migrated().migration_access() == (1nat, 0nat),
{
}

/// The migration keeps the records: there are as many as before, for the
/// same accounts in the same order, each record of the first format has
/// its amount locked and nothing unbonding, and still no account has two.
pub proof fn lemma_migrate_preserves<AccountId>(storage: LedgerStorageView<AccountId>)
    requires
        storage is V1_0_0,
    ensures
        storage.migrated().ledger_count() == storage.ledger_count(),
        storage.migrated().accounts() == storage.accounts(),
        storage.wf() ==> storage.migrated().wf(),
        forall|i: int|
            #![trigger storage.migrated()->V2_0_0_ledger[i]]
            0 <= i < storage.ledger_count() ==> {
                let record = storage.migrated()->V2_0_0_ledger[i];
                &&& record.0 == storage->V1_0_0_ledger[i].0
                &&& record.1.locked == storage->V1_0_0_ledger[i].1
                &&& record.1.unbonding_info.len() == 0
                &&& storage->V1_0_0_ledger[i].1 != 0 ==> record.1.locked != 0
            },
{
    assert(storage.migrated().accounts() =~= storage.accounts());
}

/// Where the check before the migration passes, the check after the
/// migration passes on what it noted, whether or not a record has nothing
/// locked.
pub proof fn lemma_checks_agree<AccountId>(storage: LedgerStorageView<AccountId>)
    requires
        storage.pre_check() is Ok,
    ensures
        storage.migrated().post_check(storage.pre_check()->Ok_0) == Ok::<(), MigrationFault>(()),
{
    lemma_no_fault(storage, 0);
}

/// No record from `from` on is at fault after the migration.
proof fn lemma_no_fault<AccountId>(storage: LedgerStorageView<AccountId>, from: int)
    requires
        storage is V1_0_0,
        0 <= from <= storage.ledger_count(),
    ensures
        first_fault(
            storage.migrated()->V2_0_0_ledger,
            locked_amounts(storage->V1_0_0_ledger),
            from,
        ) is None,
    decreases storage.ledger_count() - from,
{
    if from < storage.ledger_count() {
        lemma_no_fault(storage, from + 1);
    }
}

} // verus!
