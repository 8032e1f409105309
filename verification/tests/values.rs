use contract_bench::config::{
    endowment, funding, max_endowment, max_pages, Endow, FeeModel, HostConfig,
};
use contract_bench::hashing::le_bytes;
use contract_bench::host::{
    ensure_alive, ensure_tombstone, eviction_at, get_alive, AliveContractInfo, ContractAccessError,
    ContractInfo, RentProjection,
};
use contract_bench::module::ImportedMemory;
use contract_bench::storage::{create_storage, filled, storage_key, FILL};

fn config() -> HostConfig {
    HostConfig {
        max_balance: u64::MAX as u128,
        minimum_balance: 50,
        max_memory_pages: 16,
        signed_claim_handicap: 2,
        fees: FeeModel { version: 1, subsistence_threshold: 66, rent_deposit_offset: 10, storage_size_offset: 8 },
    }
}

fn alive() -> Option<ContractInfo> {
    Some(ContractInfo::Alive(AliveContractInfo { trie_id: vec![1, 2, 3], storage_size: 9 }))
}

#[test]
fn funding_is_half_of_the_largest_balance() {
    assert_eq!(funding(&config()), (u64::MAX / 2) as u128);
    let tiny = HostConfig { max_balance: 7, ..config() };
    assert_eq!(funding(&tiny), 3);
}

#[test]
fn max_endowment_leaves_the_minimum_balance() {
    assert_eq!(max_endowment(&config()), (u64::MAX / 2) as u128 - 50);
    let poor = HostConfig { max_balance: 60, ..config() };
    assert_eq!(max_endowment(&poor), 0);
}

#[test]
fn max_pages_reads_the_configuration() {
    assert_eq!(max_pages(&config()), 16);
    let memory = ImportedMemory::max(&config());
    assert_eq!(memory, ImportedMemory { min_pages: 16, max_pages: 16 });
}

#[test]
fn rent_bearing_endowment_follows_the_fee_model() {
    // storage size 66 / 10 = 6; endowment 10 * (6 + 8) - 1 = 139
    assert!(config().is_valid());
    assert_eq!(endowment(&config(), Endow::CollectRent), (6, 139));
    assert!(139 >= config().fees.subsistence_threshold);
}

#[test]
fn rent_bearing_endowment_without_deposit_offset_is_nothing() {
    let free = HostConfig { fees: FeeModel { rent_deposit_offset: 0, ..config().fees }, ..config() };
    assert!(free.is_valid());
    assert_eq!(endowment(&free, Endow::CollectRent), (0, 0));
}

#[test]
fn rent_bearing_endowment_stays_within_the_host_balance() {
    let narrow = HostConfig {
        max_balance: 1000,
        minimum_balance: 1,
        fees: FeeModel { version: 1, subsistence_threshold: 900, rent_deposit_offset: 100, storage_size_offset: 8 },
        ..config()
    };
    assert!(narrow.is_valid());
    // 100 * (9 + 8) = 1700 is capped at 1000
    assert_eq!(endowment(&narrow, Endow::CollectRent), (9, 999));
}

#[test]
fn rent_bearing_storage_size_saturates() {
    let huge = HostConfig {
        max_balance: u128::MAX,
        minimum_balance: 1,
        fees: FeeModel { version: 1, subsistence_threshold: 1 << 40, rent_deposit_offset: 1, storage_size_offset: 1 },
        ..config()
    };
    assert!(huge.is_valid());
    assert_eq!(endowment(&huge, Endow::CollectRent), (u32::MAX, (1u128 << 40)));
}

#[test]
fn maximal_endowment_accounts_no_storage() {
    assert_eq!(endowment(&config(), Endow::Max), (0, (u64::MAX / 2) as u128 - 50));
}

#[test]
fn configurations_are_checked() {
    assert!(!HostConfig { minimum_balance: 10, max_balance: 9, ..config() }.is_valid());
    assert!(!HostConfig { max_balance: 60, ..config() }.is_valid());
    let overflowing = HostConfig {
        max_balance: u128::MAX,
        fees: FeeModel { version: 1, subsistence_threshold: u128::MAX, rent_deposit_offset: 1, storage_size_offset: 1 },
        ..config()
    };
    assert!(!overflowing.is_valid());
    assert!(config().is_addressable());
    assert!(!HostConfig { max_memory_pages: 0, ..config() }.is_addressable());
    assert!(!HostConfig { max_memory_pages: 65536, ..config() }.is_addressable());
    assert!(HostConfig { max_memory_pages: 65535, ..config() }.is_addressable());
}

#[test]
fn get_alive_hands_out_the_live_record() {
    let record = get_alive(alive()).unwrap();
    assert_eq!(record.trie_id, vec![1, 2, 3]);
    assert_eq!(record.storage_size, 9);
}

#[test]
fn get_alive_rejects_what_is_not_alive() {
    assert_eq!(get_alive(None).err(), Some("Expected contract to be alive at this point."));
    assert_eq!(
        get_alive(Some(ContractInfo::Tombstone)).err(),
        Some("Expected contract to be alive at this point.")
    );
}

#[test]
fn ensure_alive_accepts_live_contracts_only() {
    assert_eq!(ensure_alive(alive()), Ok(()));
    assert_eq!(ensure_alive(None), Err("Expected contract to be alive at this point."));
    assert_eq!(
        ensure_alive(Some(ContractInfo::Tombstone)),
        Err("Expected contract to be alive at this point.")
    );
}

#[test]
fn ensure_tombstone_accepts_tombstones_only() {
    assert_eq!(ensure_tombstone(Some(ContractInfo::Tombstone)), Ok(()));
    assert_eq!(ensure_tombstone(alive()), Err("Expected contract to be a tombstone at this point."));
    assert_eq!(ensure_tombstone(None), Err("Expected contract to be a tombstone at this point."));
}

#[test]
fn eviction_at_reads_the_forecast() {
    assert_eq!(eviction_at(Ok(RentProjection::EvictionAt(17))), Ok(17));
    assert_eq!(eviction_at(Ok(RentProjection::NoEviction)), Err("Account does not pay rent."));
    assert_eq!(eviction_at(Err(ContractAccessError::DoesntExist)), Err("Invalid acc for rent"));
    assert_eq!(eviction_at(Err(ContractAccessError::IsTombstone)), Err("Invalid acc for rent"));
}

#[test]
fn le_bytes_come_least_significant_first() {
    assert_eq!(le_bytes(0), vec![0, 0, 0, 0]);
    assert_eq!(le_bytes(0x0403_0201), vec![1, 2, 3, 4]);
    assert_eq!(le_bytes(u32::MAX), vec![255, 255, 255, 255]);
    assert_eq!(le_bytes(1_048_572), 1_048_572u32.to_le_bytes().to_vec());
}

#[test]
fn storage_items_are_keyed_by_the_digest_of_their_number() {
    let items = create_storage(10, 100).unwrap();
    assert_eq!(items.len(), 10);
    for (i, (key, value)) in items.iter().enumerate() {
        let digest = sp_core_digest(i as u32);
        assert_eq!(key, &digest);
        assert_eq!(value, &vec![42u8; 100]);
    }
    assert_ne!(items[0].0, items[1].0);
    assert_ne!(&items[3].0[..4], &3u32.to_le_bytes()[..]);
}

fn sp_core_digest(number: u32) -> [u8; 32] {
    <sp_runtime::traits::BlakeTwo256 as sp_runtime::traits::Hash>::hash(&number.to_le_bytes()).to_fixed_bytes()
}

#[test]
fn storage_can_be_empty() {
    assert_eq!(create_storage(0, 100).unwrap().len(), 0);
    let items = create_storage(2, 0).unwrap();
    assert_eq!(items.len(), 2);
    assert!(items[0].1.is_empty());
}

#[test]
fn storage_keys_need_thirty_two_bytes() {
    assert_eq!(storage_key(&vec![7u8; 32]), Ok([7u8; 32]));
    assert_eq!(storage_key(&vec![7u8; 31]), Err("Hash too big for storage key"));
    assert_eq!(storage_key(&vec![7u8; 33]), Err("Hash too big for storage key"));
    assert_eq!(storage_key(&vec![]), Err("Hash too big for storage key"));
}

#[test]
fn filled_values_hold_the_fill_byte() {
    assert_eq!(FILL, 42);
    assert_eq!(filled(0), Vec::<u8>::new());
    assert_eq!(filled(5), vec![42, 42, 42, 42, 42]);
}
