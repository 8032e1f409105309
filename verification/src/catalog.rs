//! The scenarios that are measured.
//!
//! A scenario sets fixtures up, dispatches exactly one operation under a gas
//! limit that cannot be reached, and checks what the operation did. It varies
//! one dimension; where a host function is called, it is called a whole batch
//! of times for every step of that dimension, so that what a single call adds
//! stands out against the fixed cost of the dispatch.

use vstd::prelude::*;
use crate::code::create_code;
use crate::code::getter_code;
use crate::code::getter_definition;
use crate::code::hasher_code;
use crate::code::hasher_definition;
use crate::code::outcome;
use crate::code::sized_code;
use crate::code::sized_definition;
use crate::code::spec_create_code;
use crate::code::CodeError;
use crate::code::WasmModule;
use crate::config::spec_funding;
use crate::config::Balance;
use crate::config::HostConfig;
use crate::hashing::account;
use crate::hashing::benchmark_account;
use crate::hashing::hash_of;
use crate::hashing::AccountId;
use crate::hashing::CodeHash;
use crate::host::ensure_alive;
use crate::host::is_alive;
use crate::host::ensure_tombstone;
use crate::host::not_alive_message;
use crate::host::not_tombstone_message;
use crate::host::Contract;
use crate::host::ContractInfo;
use crate::host::GAS_LIMIT;
use crate::instructions::body_counted;
use crate::instructions::body_repeated;
use crate::instructions::counted_cycle;
use crate::instructions::cycle;
use crate::instructions::CountedInstruction;
use crate::instructions::Instruction;
use crate::instructions::ValueType;
use crate::module::DataSegment;
use crate::module::DataSegmentView;
use crate::module::ImportedFunction;
use crate::module::ImportedFunctionView;
use crate::module::ImportedMemory;
use crate::module::ModuleDefinition;
use crate::module::ModuleDefinitionView;
use crate::storage::item_key;

verus! {

/// The number of steps of the dimension of a scenario that counts calls of a
/// host function.
pub const API_BENCHMARK_BATCHES: u32 = 20;

/// The number of calls of a host function in one batch.
pub const API_BENCHMARK_BATCH_SIZE: u32 = 100;

/// The number of bytes of a storage key and of a content hash.
pub const KEY_LEN: u32 = 32;

/// The number of calls that `batches` batches hold.
pub open spec fn spec_batched(batches: u32) -> u32 {
    (batches * API_BENCHMARK_BATCH_SIZE) as u32
}

/// The number of calls that `batches` batches hold.
pub fn batched(batches: u32) -> (calls: u32)
    requires
        batches <= API_BENCHMARK_BATCHES,
    ensures
        calls == spec_batched(batches),
        calls == batches * 100,
{
    batches * API_BENCHMARK_BATCH_SIZE
}

/// Who dispatches the measured operation.
#[derive(Clone, Copy, Debug)]
pub enum Origin {
    /// The host itself.
    Root,
    /// An account.
    Signed(AccountId),
}

/// The one operation that a scenario measures.
#[derive(Debug)]
pub enum Operation {
    /// Replace the cost schedule by the one of this version.
    UpdateSchedule { origin: Origin, version: u32 },
    /// Register code.
    PutCode { origin: Origin, code: Vec<u8> },
    /// Instantiate a contract from registered code.
    Instantiate { origin: Origin, endowment: Balance, gas_limit: u64, code_hash: CodeHash, data: Vec<u8> },
    /// Call a contract.
    Call { origin: Origin, dest: AccountId, value: Balance, gas_limit: u64, data: Vec<u8> },
    /// Claim the reward for the eviction of a contract.
    ClaimSurcharge { origin: Origin, dest: AccountId },
}

/// An operation as contracts see it.
pub enum OperationView {
    UpdateSchedule { origin: Origin, version: u32 },
    PutCode { origin: Origin, code: Seq<u8> },
    Instantiate { origin: Origin, endowment: Balance, gas_limit: u64, code_hash: CodeHash, data: Seq<u8> },
    Call { origin: Origin, dest: AccountId, value: Balance, gas_limit: u64, data: Seq<u8> },
    ClaimSurcharge { origin: Origin, dest: AccountId },
}

impl View for Operation {
    type V = OperationView;

    open spec fn view(&self) -> OperationView {
        match self {
            Operation::UpdateSchedule { origin, version } => OperationView::UpdateSchedule {
                origin: *origin,
                version: *version,
            },
            Operation::PutCode { origin, code } => OperationView::PutCode {
                origin: *origin,
                code: code@,
            },
            Operation::Instantiate {
                origin,
                endowment,
                gas_limit,
                code_hash,
                data,
            } => OperationView::Instantiate {
                origin: *origin,
                endowment: *endowment,
                gas_limit: *gas_limit,
                code_hash: *code_hash,
                data: data@,
            },
            Operation::Call { origin, dest, value, gas_limit, data } => OperationView::Call {
                origin: *origin,
                dest: *dest,
                value: *value,
                gas_limit: *gas_limit,
                data: data@,
            },
            Operation::ClaimSurcharge { origin, dest } => OperationView::ClaimSurcharge {
                origin: *origin,
                dest: *dest,
            },
        }
    }
}

/// The update of the cost schedule, dispatched by the host itself.
pub fn update_schedule() -> (operation: Operation)
    ensures
        operation@ == (OperationView::UpdateSchedule { origin: Origin::Root, version: 1 }),
{
    Operation::UpdateSchedule { origin: Origin::Root, version: 1 }
}

/// The registration of a module's code by the given account.
pub fn put_code(caller: AccountId, module: WasmModule) -> (operation: Operation)
    ensures
        operation@ == (OperationView::PutCode { origin: Origin::Signed(caller), code: module.code@ }),
{
    Operation::PutCode { origin: Origin::Signed(caller), code: module.code }
}

/// The instantiation of a contract by the given account, under a gas limit
/// that cannot be reached.
pub fn instantiate(caller: AccountId, endowment: Balance, code_hash: CodeHash, data: Vec<u8>) -> (operation:
    Operation)
    ensures
        operation@ == (OperationView::Instantiate {
            origin: Origin::Signed(caller),
            endowment,
            gas_limit: GAS_LIMIT,
            code_hash,
            data: data@,
        }),
{
    Operation::Instantiate {
        origin: Origin::Signed(caller),
        endowment,
        gas_limit: GAS_LIMIT,
        code_hash,
        data,
    }
}

/// The call of a contract by the account that instantiated it, under a gas
/// limit that cannot be reached.
pub fn call(instance: &Contract, value: Balance, data: Vec<u8>) -> (operation: Operation)
    ensures
        operation@ == (OperationView::Call {
            origin: Origin::Signed(instance.caller),
            dest: instance.addr,
            value,
            gas_limit: GAS_LIMIT,
            data: data@,
        }),
{
    Operation::Call {
        origin: Origin::Signed(instance.caller),
        dest: instance.addr,
        value,
        gas_limit: GAS_LIMIT,
        data,
    }
}

/// The claim for the eviction of a contract by the account that
/// instantiated it.
pub fn claim_surcharge(instance: &Contract) -> (operation: Operation)
    ensures
        operation@ == (OperationView::ClaimSurcharge {
            origin: Origin::Signed(instance.caller),
            dest: instance.account_id,
        }),
{
    Operation::ClaimSurcharge { origin: Origin::Signed(instance.caller), dest: instance.account_id }
}

/// The code whose registration is measured: `kilobytes` KiB of it, of the
/// kind that is the most expensive to instrument.
pub fn put_code_module(kilobytes: u32) -> (module: Result<WasmModule, CodeError>)
    requires
        kilobytes * 1024 <= u32::MAX,
    ensures
        outcome(module) == spec_create_code(sized_definition((kilobytes * 1024) as u32)),
{
    sized_code(kilobytes * 1024)
}

/// The module of a scenario that measures a getter of the host's API:
/// `batches` batches of calls.
pub fn getter_module(config: &HostConfig, getter_name: &'static str, batches: u32) -> (module: Result<
    WasmModule,
    CodeError,
>)
    requires
        config.addressable(),
        batches <= API_BENCHMARK_BATCHES,
    ensures
        outcome(module) == spec_create_code(
            getter_definition(config.max_memory_pages, getter_name@, spec_batched(batches)),
        ),
{
    getter_code(config, getter_name, batched(batches))
}

/// The module of a scenario that measures the call of a hash function of the
/// host's API on no input: `batches` batches of calls.
pub fn hasher_module(config: &HostConfig, name: &'static str, batches: u32) -> (module: Result<
    WasmModule,
    CodeError,
>)
    requires
        batches <= API_BENCHMARK_BATCHES,
    ensures
        outcome(module) == spec_create_code(
            hasher_definition(config.max_memory_pages, name@, spec_batched(batches), 0),
        ),
{
    hasher_code(config, name, batched(batches), 0)
}

/// The module of a scenario that measures what a hash function of the
/// host's API takes per KiB of input: one batch of calls on `kilobytes` KiB.
pub fn hasher_module_per_kb(config: &HostConfig, name: &'static str, kilobytes: u32) -> (module:
    Result<WasmModule, CodeError>)
    requires
        kilobytes * 1024 <= u32::MAX,
    ensures
        outcome(module) == spec_create_code(
            hasher_definition(
                config.max_memory_pages,
                name@,
                API_BENCHMARK_BATCH_SIZE,
                (kilobytes * 1024) as u32,
            ),
        ),
{
    hasher_code(config, name, API_BENCHMARK_BATCH_SIZE, kilobytes * 1024)
}

/// What the gas meter of the host is called with.
pub open spec fn gas_call() -> Seq<Instruction> {
    seq![Instruction::I32Const(42), Instruction::Call(0)]
}

/// The definition that [`gas_module`] encodes.
pub open spec fn gas_definition(batches: u32) -> ModuleDefinitionView {
    ModuleDefinitionView {
        imported_functions: seq![
            ImportedFunctionView { name: "gas"@, params: seq![ValueType::I32], return_type: None },
        ],
        call_body: Some(cycle(gas_call(), spec_batched(batches) as nat).push(Instruction::End)),
        ..ModuleDefinitionView::empty()
    }
}

/// The module of the scenario that measures the gas meter: `batches`
/// batches of calls, without a memory.
pub fn gas_module(batches: u32) -> (module: Result<WasmModule, CodeError>)
    requires
        batches <= API_BENCHMARK_BATCHES,
    ensures
        outcome(module) == spec_create_code(gas_definition(batches)),
{
    let mut params: Vec<ValueType> = Vec::new();
    params.push(ValueType::I32);
    let mut imported_functions: Vec<ImportedFunction> = Vec::new();
    imported_functions.push(ImportedFunction { name: "gas", params, return_type: None });
    let mut pattern: Vec<Instruction> = Vec::new();
    pattern.push(Instruction::I32Const(42));
    pattern.push(Instruction::Call(0));
    proof {
        assert(pattern@ =~= gas_call());
    }
    let definition = ModuleDefinition {
        memory: None,
        imported_functions,
        data_segments: Vec::new(),
        deploy_body: None,
        call_body: Some(body_repeated(batched(batches), pattern.as_slice())),
    };
    proof {
        let expected = gas_definition(batches);
        assert(definition@.imported_functions[0].params =~= expected.imported_functions[0].params);
        assert(definition@.imported_functions =~= expected.imported_functions);
        assert(definition@.data_segments =~= expected.data_segments);
        assert(definition@ == expected);
    }
    create_code(definition)
}

/// The keys of the first `count` storage items, one after the other.
pub open spec fn flat_keys(count: nat) -> Seq<u8>
    decreases count,
{
    if count == 0 {
        Seq::empty()
    } else {
        flat_keys((count - 1) as nat) + item_key((count - 1) as u32)
    }
}

/// The keys of the first `count` storage items, one after the other.
pub fn keys(count: u32) -> (bytes: Vec<u8>)
    ensures
        bytes@ == flat_keys(count as nat),
{
    let mut bytes: Vec<u8> = Vec::new();
    let mut number: u32 = 0;
    while number < count
        invariant
            number <= count,
            bytes@ == flat_keys(number as nat),
        decreases count - number,
    {
        let digest = hash_of(number);
        let ghost before = bytes@;
        let mut at: usize = 0;
        while at < digest.len()
            invariant
                at <= digest.len(),
                bytes@ == before + digest@.subrange(0, at as int),
            decreases digest.len() - at,
        {
            bytes.push(digest[at]);
            at += 1;
            proof {
                assert(bytes@ =~= before + digest@.subrange(0, at as int));
            }
        }
        proof {
            assert(digest@.subrange(0, at as int) =~= digest@);
        }
        number += 1;
    }
    bytes
}

/// What a storage item is set with: the address of its key, which moves on
/// by the length of a key from call to call, the address and the length of
/// the value, then the call.
pub open spec fn set_storage_call() -> Seq<CountedInstruction> {
    seq![
        CountedInstruction::Counter(0, KEY_LEN),
        CountedInstruction::Regular(Instruction::I32Const(0)),
        CountedInstruction::Regular(Instruction::I32Const(0)),
        CountedInstruction::Regular(Instruction::Call(0)),
    ]
}

/// The definition that [`set_storage_module`] encodes.
pub open spec fn set_storage_definition(pages: u32, batches: u32) -> ModuleDefinitionView {
    ModuleDefinitionView {
        memory: Some(ImportedMemory { min_pages: pages, max_pages: pages }),
        imported_functions: seq![
            ImportedFunctionView {
                name: "seal_set_storage"@,
                params: seq![ValueType::I32, ValueType::I32, ValueType::I32],
                return_type: None,
            },
        ],
        data_segments: seq![
            DataSegmentView { offset: 0, value: flat_keys(spec_batched(batches) as nat) },
        ],
        deploy_body: None,
        call_body: Some(
            counted_cycle(set_storage_call(), spec_batched(batches) as nat).push(Instruction::End),
        ),
    }
}

/// The module of the scenario that measures the setting of a storage item:
/// `batches` batches of calls, each call on a key of its own, so that no
/// call finds the item that another one has set.
pub fn set_storage_module(config: &HostConfig, batches: u32) -> (module: Result<WasmModule, CodeError>)
    requires
        batches <= API_BENCHMARK_BATCHES,
    ensures
        outcome(module) == spec_create_code(
            set_storage_definition(config.max_memory_pages, batches),
        ),
{
    let calls = batched(batches);
    let mut params: Vec<ValueType> = Vec::new();
    params.push(ValueType::I32);
    params.push(ValueType::I32);
    params.push(ValueType::I32);
    let mut imported_functions: Vec<ImportedFunction> = Vec::new();
    imported_functions.push(
        ImportedFunction { name: "seal_set_storage", params, return_type: None },
    );
    let mut data_segments: Vec<DataSegment> = Vec::new();
    data_segments.push(DataSegment { offset: 0, value: keys(calls) });
    let mut pattern: Vec<CountedInstruction> = Vec::new();
    pattern.push(CountedInstruction::Counter(0, KEY_LEN));
    pattern.push(CountedInstruction::Regular(Instruction::I32Const(0)));
    pattern.push(CountedInstruction::Regular(Instruction::I32Const(0)));
    pattern.push(CountedInstruction::Regular(Instruction::Call(0)));
    proof {
        assert(pattern@ =~= set_storage_call());
        assert(calls * 32 <= 64000) by (nonlinear_arith)
            requires
                calls <= 2000,
        ;
    }
    let definition = ModuleDefinition {
        memory: Some(ImportedMemory::max(config)),
        imported_functions,
        data_segments,
        deploy_body: None,
        call_body: Some(body_counted(calls, pattern)),
    };
    proof {
        let expected = set_storage_definition(config.max_memory_pages, batches);
        assert(definition@.imported_functions[0].params =~= expected.imported_functions[0].params);
        assert(definition@.imported_functions =~= expected.imported_functions);
        assert(definition@.data_segments =~= expected.data_segments);
        assert(definition@ == expected);
    }
    create_code(definition)
}

/// The benchmark accounts with the given name and the first `count`
/// indices, one after the other.
pub open spec fn flat_accounts(name: Seq<char>, count: nat) -> Seq<u8>
    decreases count,
{
    if count == 0 {
        Seq::empty()
    } else {
        flat_accounts(name, (count - 1) as nat) + benchmark_account(name, (count - 1) as u32, 0)
    }
}

/// The benchmark accounts with the given name and the first `count`
/// indices, one after the other.
pub fn accounts(name: &'static str, count: u32) -> (bytes: Vec<u8>)
    ensures
        bytes@ == flat_accounts(name@, count as nat),
        bytes@.len() == count * KEY_LEN,
{
    let mut bytes: Vec<u8> = Vec::new();
    let mut index: u32 = 0;
    proof {
        assert(0 * KEY_LEN == 0) by (nonlinear_arith);
    }
    while index < count
        invariant
            index <= count,
            bytes@ == flat_accounts(name@, index as nat),
            bytes@.len() == index * KEY_LEN,
        decreases count - index,
    {
        let id = account(name, index, 0);
        let ghost before = bytes@;
        let mut at: usize = 0;
        while at < 32
            invariant
                at <= 32,
                bytes@ == before + id@.subrange(0, at as int),
            decreases 32 - at,
        {
            bytes.push(id[at]);
            at += 1;
            proof {
                assert(bytes@ =~= before + id@.subrange(0, at as int));
            }
        }
        proof {
            assert(id@.subrange(0, 32) =~= id@);
            assert((index + 1) * KEY_LEN == index * KEY_LEN + KEY_LEN) by (nonlinear_arith);
        }
        index += 1;
    }
    bytes
}

/// The name of the accounts that receive a transfer.
pub open spec fn receiver() -> Seq<char> {
    "receiver"@
}

/// The length of one account among `calls` of them: nothing where there is
/// none.
pub open spec fn account_len(calls: u32) -> u32 {
    if calls == 0 {
        0
    } else {
        KEY_LEN
    }
}

/// What a transfer is called with: the address of the receiver, which moves
/// on by the length of an account from call to call, the length of an
/// account, the address and the length of the value, then the call, whose
/// result is dropped.
pub open spec fn transfer_call(value_len: u32, calls: u32) -> Seq<CountedInstruction> {
    seq![
        CountedInstruction::Counter(value_len, account_len(calls)),
        CountedInstruction::Regular(Instruction::I32Const(account_len(calls) as i32)),
        CountedInstruction::Regular(Instruction::I32Const(0)),
        CountedInstruction::Regular(Instruction::I32Const(value_len as i32)),
        CountedInstruction::Regular(Instruction::Call(0)),
        CountedInstruction::Regular(Instruction::Drop),
    ]
}

/// The definition that [`transfer_module`] encodes.
pub open spec fn transfer_definition(pages: u32, batches: u32, value: Seq<u8>) -> ModuleDefinitionView {
    ModuleDefinitionView {
        memory: Some(ImportedMemory { min_pages: pages, max_pages: pages }),
        imported_functions: seq![
            ImportedFunctionView {
                name: "seal_transfer"@,
                params: seq![ValueType::I32, ValueType::I32, ValueType::I32, ValueType::I32],
                return_type: Some(ValueType::I32),
            },
        ],
        data_segments: seq![
            DataSegmentView { offset: 0, value },
            DataSegmentView {
                offset: value.len() as u32,
                value: flat_accounts(receiver(), spec_batched(batches) as nat),
            },
        ],
        deploy_body: None,
        call_body: Some(
            counted_cycle(
                transfer_call(value.len() as u32, spec_batched(batches)),
                spec_batched(batches) as nat,
            ).push(Instruction::End),
        ),
    }
}

/// The module of the scenario that measures a transfer: `batches` batches
/// of calls, each to a receiver of its own. The memory holds the encoded
/// value first and the receivers right after it.
pub fn transfer_module(config: &HostConfig, batches: u32, value: Vec<u8>) -> (module: Result<
    WasmModule,
    CodeError,
>)
    requires
        batches <= API_BENCHMARK_BATCHES,
        value@.len() <= 0xffff,
    ensures
        outcome(module) == spec_create_code(
            transfer_definition(config.max_memory_pages, batches, value@),
        ),
{
    let calls = batched(batches);
    let value_len: u32 = value.len() as u32;
    let each: u32 = if calls == 0 {
        0
    } else {
        KEY_LEN
    };
    let mut params: Vec<ValueType> = Vec::new();
    params.push(ValueType::I32);
    params.push(ValueType::I32);
    params.push(ValueType::I32);
    params.push(ValueType::I32);
    let mut imported_functions: Vec<ImportedFunction> = Vec::new();
    imported_functions.push(
        ImportedFunction { name: "seal_transfer", params, return_type: Some(ValueType::I32) },
    );
    let mut data_segments: Vec<DataSegment> = Vec::new();
    data_segments.push(DataSegment { offset: 0, value });
    data_segments.push(DataSegment { offset: value_len, value: accounts("receiver", calls) });
    let mut pattern: Vec<CountedInstruction> = Vec::new();
    pattern.push(CountedInstruction::Counter(value_len, each));
    pattern.push(CountedInstruction::Regular(Instruction::I32Const(each as i32)));
    pattern.push(CountedInstruction::Regular(Instruction::I32Const(0)));
    pattern.push(CountedInstruction::Regular(Instruction::I32Const(value_len as i32)));
    pattern.push(CountedInstruction::Regular(Instruction::Call(0)));
    pattern.push(CountedInstruction::Regular(Instruction::Drop));
    proof {
        assert(pattern@ =~= transfer_call(value_len, calls));
        assert(calls * each <= 64000) by (nonlinear_arith)
            requires
                calls <= 2000,
                each <= 32,
        ;
    }
    let definition = ModuleDefinition {
        memory: Some(ImportedMemory::max(config)),
        imported_functions,
        data_segments,
        deploy_body: None,
        call_body: Some(body_counted(calls, pattern)),
    };
    proof {
        let expected = transfer_definition(config.max_memory_pages, batches, value@);
        assert(definition@.imported_functions[0].params =~= expected.imported_functions[0].params);
        assert(definition@.imported_functions =~= expected.imported_functions);
        assert(definition@.data_segments =~= expected.data_segments);
        assert(definition@ == expected);
    }
    create_code(definition)
}

pub open spec fn caller_balance_message() -> Seq<char> {
    "The caller did not pay what the operation costs."@
}

pub open spec fn contract_balance_message() -> Seq<char> {
    "The contract does not hold what the operation leaves it."@
}

/// What has to hold after a measured instantiation: the endowment has left
/// the caller, the contract holds all of it, and the contract is alive.
pub fn verify_instantiate(
    config: &HostConfig,
    endowment: Balance,
    caller_balance: Balance,
    contract_balance: Balance,
    info: Option<ContractInfo>,
) -> (verdict: Result<(), &'static str>)
    ensures
        caller_balance + endowment != spec_funding(*config) ==> verdict is Err && verdict->Err_0@
            == caller_balance_message(),
        caller_balance + endowment == spec_funding(*config) && contract_balance != endowment
            ==> verdict is Err && verdict->Err_0@ == contract_balance_message(),
        caller_balance + endowment == spec_funding(*config) && contract_balance == endowment
            && !is_alive(info) ==> verdict is Err && verdict->Err_0@
            == not_alive_message(),
        caller_balance + endowment == spec_funding(*config) && contract_balance == endowment
            && is_alive(info) ==> verdict is Ok,
{
    let funded = crate::config::funding(config);
    if endowment > funded || caller_balance != funded - endowment {
        return Err("The caller did not pay what the operation costs.");
    }
    if contract_balance != endowment {
        return Err("The contract does not hold what the operation leaves it.");
    }
    ensure_alive(info)
}

/// What has to hold after a measured call of a rent-bearing contract: the
/// endowment and the value have left the caller, rent has lowered what the
/// contract holds, and yet the contract is alive.
pub fn verify_call(
    config: &HostConfig,
    endowment: Balance,
    value: Balance,
    caller_balance: Balance,
    contract_before: Balance,
    contract_after: Balance,
    info: Option<ContractInfo>,
) -> (verdict: Result<(), &'static str>)
    ensures
        caller_balance + endowment + value != spec_funding(*config) ==> verdict is Err
            && verdict->Err_0@ == caller_balance_message(),
        caller_balance + endowment + value == spec_funding(*config) && contract_after
            >= contract_before + value ==> verdict is Err && verdict->Err_0@
            == contract_balance_message(),
        caller_balance + endowment + value == spec_funding(*config) && contract_after
            < contract_before + value && !is_alive(info)
            ==> verdict is Err && verdict->Err_0@ == not_alive_message(),
        caller_balance + endowment + value == spec_funding(*config) && contract_after
            < contract_before + value && is_alive(info)
            ==> verdict is Ok,
{
    let funded = crate::config::funding(config);
    if endowment > funded || value > funded - endowment || caller_balance != funded - endowment
        - value {
        return Err("The caller did not pay what the operation costs.");
    }
    let paid = match contract_before.checked_add(value) {
        Some(sum) => contract_after < sum,
        None => true,
    };
    if !paid {
        return Err("The contract does not hold what the operation leaves it.");
    }
    ensure_alive(info)
}

/// What has to hold after a measured claim: the contract is a tombstone, and
/// the caller holds the funding less the endowment and the reward on top.
pub fn verify_claim_surcharge(
    config: &HostConfig,
    endowment: Balance,
    reward: Balance,
    caller_balance: Balance,
    info: Option<ContractInfo>,
) -> (verdict: Result<(), &'static str>)
    ensures
        info != Some(ContractInfo::Tombstone) ==> verdict is Err && verdict->Err_0@
            == not_tombstone_message(),
        info == Some(ContractInfo::Tombstone) && caller_balance + endowment != spec_funding(*config)
            + reward ==> verdict is Err && verdict->Err_0@ == caller_balance_message(),
        info == Some(ContractInfo::Tombstone) && caller_balance + endowment == spec_funding(*config)
            + reward ==> verdict is Ok,
{
    match ensure_tombstone(info) {
        Ok(_) => {},
        Err(reason) => {
            return Err(reason);
        },
    }
    let funded = crate::config::funding(config);
    let paid = if caller_balance >= funded {
        match (caller_balance - funded).checked_add(endowment) {
            Some(sum) => sum == reward,
            None => false,
        }
    } else {
        match (funded - caller_balance).checked_add(reward) {
            Some(sum) => sum == endowment,
            None => false,
        }
    };
    if paid {
        Ok(())
    } else {
        Err("The caller did not pay what the operation costs.")
    }
}

} // verus!
