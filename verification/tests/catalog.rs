use contract_bench::catalog::{
    accounts, batched, call, claim_surcharge, gas_module, getter_module, hasher_module,
    hasher_module_per_kb, instantiate, keys, put_code, put_code_module, set_storage_module,
    transfer_module, update_schedule, verify_call, verify_claim_surcharge, verify_instantiate,
    Operation, Origin, API_BENCHMARK_BATCHES, API_BENCHMARK_BATCH_SIZE, KEY_LEN,
};
use contract_bench::code::{dummy_code, getter_code, hasher_code, sized_code};
use contract_bench::config::{funding, FeeModel, HostConfig};
use contract_bench::host::{AliveContractInfo, Contract, ContractInfo, GAS_LIMIT};
use parity_wasm::elements::{External, Instruction as W, Module, Type, ValueType};

fn config() -> HostConfig {
    HostConfig {
        max_balance: 1000,
        minimum_balance: 50,
        max_memory_pages: 16,
        signed_claim_handicap: 2,
        fees: FeeModel { version: 1, subsistence_threshold: 66, rent_deposit_offset: 10, storage_size_offset: 8 },
    }
}

fn alive() -> Option<ContractInfo> {
    Some(ContractInfo::Alive(AliveContractInfo { trie_id: vec![], storage_size: 0 }))
}

fn instance() -> Contract {
    Contract { caller: [1u8; 32], account_id: [2u8; 32], addr: [2u8; 32], endowment: 139, code_hash: [3u8; 32] }
}

fn call_body(code: &[u8]) -> Vec<W> {
    let decoded = parity_wasm::deserialize_buffer::<Module>(code).unwrap();
    decoded.code_section().unwrap().bodies()[1].code().elements().to_vec()
}

#[test]
fn batches_hold_a_hundred_calls_each() {
    assert_eq!(API_BENCHMARK_BATCHES, 20);
    assert_eq!(API_BENCHMARK_BATCH_SIZE, 100);
    assert_eq!(batched(0), 0);
    assert_eq!(batched(1), 100);
    assert_eq!(batched(20), 2000);
}

#[test]
fn operations_run_under_the_unreachable_gas_limit() {
    assert_eq!(GAS_LIMIT, u64::MAX);
    match call(&instance(), 0, vec![]) {
        Operation::Call { origin: Origin::Signed(who), dest, value, gas_limit, data } => {
            assert_eq!(who, [1u8; 32]);
            assert_eq!(dest, [2u8; 32]);
            assert_eq!(value, 0);
            assert_eq!(gas_limit, u64::MAX);
            assert!(data.is_empty());
        }
        _ => panic!("a call"),
    }
    match instantiate([1u8; 32], 66, [3u8; 32], vec![42; 8]) {
        Operation::Instantiate { origin: Origin::Signed(who), endowment, gas_limit, code_hash, data } => {
            assert_eq!(who, [1u8; 32]);
            assert_eq!(endowment, 66);
            assert_eq!(gas_limit, u64::MAX);
            assert_eq!(code_hash, [3u8; 32]);
            assert_eq!(data, vec![42; 8]);
        }
        _ => panic!("an instantiation"),
    }
}

#[test]
fn operations_name_who_dispatches_them() {
    match update_schedule() {
        Operation::UpdateSchedule { origin: Origin::Root, version } => assert_eq!(version, 1),
        _ => panic!("a schedule update by the host"),
    }
    let module = dummy_code().unwrap();
    let code = module.code.clone();
    match put_code([4u8; 32], module) {
        Operation::PutCode { origin: Origin::Signed(who), code: registered } => {
            assert_eq!(who, [4u8; 32]);
            assert_eq!(registered, code);
        }
        _ => panic!("a registration"),
    }
    match claim_surcharge(&instance()) {
        Operation::ClaimSurcharge { origin: Origin::Signed(who), dest } => {
            assert_eq!(who, [1u8; 32]);
            assert_eq!(dest, [2u8; 32]);
        }
        _ => panic!("a claim"),
    }
}

#[test]
fn put_code_module_has_the_size_asked_for() {
    assert_eq!(put_code_module(0).unwrap().code.len(), 47);
    let module = put_code_module(4).unwrap();
    assert_eq!(module.code, sized_code(4096).unwrap().code);
    assert!(module.code.len() <= 4096);
    assert!(module.code.len() > 4096 - 12);
}

#[test]
fn getter_and_hasher_modules_are_batched() {
    let getter = getter_module(&config(), "seal_now", 2).unwrap();
    assert_eq!(getter.code, getter_code(&config(), "seal_now", 200).unwrap().code);
    assert_eq!(call_body(&getter.code).len(), 200 * 3 + 1);
    let hasher = hasher_module(&config(), "seal_hash_keccak_256", 1).unwrap();
    assert_eq!(hasher.code, hasher_code(&config(), "seal_hash_keccak_256", 100, 0).unwrap().code);
    let per_kb = hasher_module_per_kb(&config(), "seal_hash_keccak_256", 3).unwrap();
    assert_eq!(per_kb.code, hasher_code(&config(), "seal_hash_keccak_256", 100, 3072).unwrap().code);
    assert_eq!(call_body(&per_kb.code)[1], W::I32Const(3072));
}

#[test]
fn gas_module_needs_no_memory() {
    let module = gas_module(1).unwrap();
    let decoded = parity_wasm::deserialize_buffer::<Module>(&module.code).unwrap();
    let imports = decoded.import_section().unwrap().entries();
    assert_eq!(imports.len(), 1);
    assert_eq!(imports[0].module(), "seal0");
    assert_eq!(imports[0].field(), "gas");
    assert_eq!(imports[0].external(), &External::Function(1));
    let Type::Function(signature) = &decoded.type_section().unwrap().types()[1];
    assert_eq!(signature.params(), &[ValueType::I32]);
    assert_eq!(signature.return_type(), None);
    let body = call_body(&module.code);
    assert_eq!(body.len(), 201);
    assert_eq!(&body[..2], &[W::I32Const(42), W::Call(0)]);
    assert_eq!(call_body(&gas_module(0).unwrap().code), vec![W::End]);
}

#[test]
fn keys_follow_one_another() {
    let bytes = keys(3);
    assert_eq!(bytes.len(), 96);
    for number in 0u32..3 {
        let digest = <sp_runtime::traits::BlakeTwo256 as sp_runtime::traits::Hash>::hash(&number.to_le_bytes());
        assert_eq!(&bytes[32 * number as usize..32 * (number as usize + 1)], digest.as_ref());
    }
    assert!(keys(0).is_empty());
}

#[test]
fn set_storage_module_gives_every_call_a_key_of_its_own() {
    assert_eq!(KEY_LEN, 32);
    let module = set_storage_module(&config(), 1).unwrap();
    let decoded = parity_wasm::deserialize_buffer::<Module>(&module.code).unwrap();
    let data = decoded.data_section().unwrap().entries();
    assert_eq!(data.len(), 1);
    assert_eq!(data[0].value(), &keys(100)[..]);
    let body = call_body(&module.code);
    assert_eq!(body.len(), 100 * 4 + 1);
    for i in 0..100usize {
        assert_eq!(body[4 * i], W::I32Const(32 * i as i32));
        assert_eq!(body[4 * i + 1], W::I32Const(0));
        assert_eq!(body[4 * i + 2], W::I32Const(0));
        assert_eq!(body[4 * i + 3], W::Call(0));
    }
    assert_eq!(imports_of(&module.code), vec!["memory".to_string(), "seal_set_storage".to_string()]);
}

fn imports_of(code: &[u8]) -> Vec<String> {
    let decoded = parity_wasm::deserialize_buffer::<Module>(code).unwrap();
    decoded.import_section().unwrap().entries().iter().map(|e| e.field().to_string()).collect()
}

#[test]
fn accounts_follow_one_another() {
    let bytes = accounts("receiver", 2);
    assert_eq!(bytes.len(), 64);
    for index in 0u32..2 {
        let id: sp_runtime::AccountId32 = frame_benchmarking::account("receiver", index, 0);
        let id: [u8; 32] = id.into();
        assert_eq!(&bytes[32 * index as usize..32 * (index as usize + 1)], &id[..]);
    }
}

#[test]
fn transfer_module_places_the_receivers_after_the_value() {
    let value = 66u64.to_le_bytes().to_vec();
    let module = transfer_module(&config(), 1, value.clone()).unwrap();
    let decoded = parity_wasm::deserialize_buffer::<Module>(&module.code).unwrap();
    let data = decoded.data_section().unwrap().entries();
    assert_eq!(data.len(), 2);
    assert_eq!(data[0].value(), &value[..]);
    assert_eq!(data[0].offset().as_ref().unwrap().code(), &[W::I32Const(0), W::End]);
    assert_eq!(data[1].value(), &accounts("receiver", 100)[..]);
    assert_eq!(data[1].offset().as_ref().unwrap().code(), &[W::I32Const(8), W::End]);
    let body = call_body(&module.code);
    assert_eq!(body.len(), 100 * 6 + 1);
    for i in 0..100usize {
        assert_eq!(
            &body[6 * i..6 * i + 6],
            &[
                W::I32Const(8 + 32 * i as i32),
                W::I32Const(32),
                W::I32Const(0),
                W::I32Const(8),
                W::Call(0),
                W::Drop
            ]
        );
    }
    let Type::Function(signature) = &decoded.type_section().unwrap().types()[1];
    assert_eq!(signature.params().len(), 4);
    assert_eq!(signature.return_type(), Some(ValueType::I32));
}

#[test]
fn transfer_module_without_calls_holds_the_value_alone() {
    let module = transfer_module(&config(), 0, vec![1, 2, 3]).unwrap();
    let decoded = parity_wasm::deserialize_buffer::<Module>(&module.code).unwrap();
    let data = decoded.data_section().unwrap().entries();
    assert_eq!(data[1].value(), &[] as &[u8]);
    assert_eq!(call_body(&module.code), vec![W::End]);
}

#[test]
fn instantiation_is_verified_by_the_balances() {
    // funding 500, endowment 66
    assert_eq!(funding(&config()), 500);
    assert_eq!(verify_instantiate(&config(), 66, 434, 66, alive()), Ok(()));
    assert_eq!(
        verify_instantiate(&config(), 66, 435, 66, alive()),
        Err("The caller did not pay what the operation costs.")
    );
    assert_eq!(
        verify_instantiate(&config(), 66, 434, 65, alive()),
        Err("The contract does not hold what the operation leaves it.")
    );
    assert_eq!(
        verify_instantiate(&config(), 66, 434, 66, None),
        Err("Expected contract to be alive at this point.")
    );
    assert_eq!(
        verify_instantiate(&config(), 501, 0, 501, alive()),
        Err("The caller did not pay what the operation costs.")
    );
}

#[test]
fn call_is_verified_by_the_rent_paid() {
    // funding 500, endowment 139, value 100: the caller keeps 261
    assert_eq!(verify_call(&config(), 139, 100, 261, 139, 230, alive()), Ok(()));
    assert_eq!(
        verify_call(&config(), 139, 100, 262, 139, 230, alive()),
        Err("The caller did not pay what the operation costs.")
    );
    assert_eq!(
        verify_call(&config(), 139, 100, 261, 139, 239, alive()),
        Err("The contract does not hold what the operation leaves it.")
    );
    assert_eq!(
        verify_call(&config(), 139, 100, 261, 139, 230, Some(ContractInfo::Tombstone)),
        Err("Expected contract to be alive at this point.")
    );
}

#[test]
fn claim_is_verified_by_the_reward() {
    // funding 500, endowment 139, reward 30: the caller holds 391
    let tombstone = Some(ContractInfo::Tombstone);
    assert_eq!(verify_claim_surcharge(&config(), 139, 30, 391, tombstone), Ok(()));
    let tombstone = Some(ContractInfo::Tombstone);
    assert_eq!(
        verify_claim_surcharge(&config(), 139, 30, 361, tombstone),
        Err("The caller did not pay what the operation costs.")
    );
    assert_eq!(
        verify_claim_surcharge(&config(), 139, 30, 391, alive()),
        Err("Expected contract to be a tombstone at this point.")
    );
    let tombstone = Some(ContractInfo::Tombstone);
    assert_eq!(verify_claim_surcharge(&config(), 600, 130, 30, tombstone), Ok(()));
}
