use contract_bench::code::{create_code, dummy_code, getter_code, hasher_code, sized_code, CodeError};
use contract_bench::config::{FeeModel, HostConfig};
use contract_bench::instructions::{body, body_repeated, Instruction, ValueType};
use contract_bench::module::{DataSegment, ImportedFunction, ImportedMemory, ModuleDefinition};
use parity_wasm::elements::{BlockType, External, Instruction as W, Internal, Module};

fn config() -> HostConfig {
    HostConfig {
        max_balance: u64::MAX as u128,
        minimum_balance: 50,
        max_memory_pages: 16,
        signed_claim_handicap: 2,
        fees: FeeModel { version: 1, subsistence_threshold: 66, rent_deposit_offset: 10_000, storage_size_offset: 8 },
    }
}

fn decode(code: &[u8]) -> Module {
    parity_wasm::deserialize_buffer::<Module>(code).expect("the module decodes")
}

#[test]
fn dummy_code_exports_deploy_and_call() {
    let module = dummy_code().unwrap();
    let decoded = decode(&module.code);
    let exports = decoded.export_section().unwrap().entries();
    assert_eq!(exports.len(), 2);
    assert_eq!(exports[0].field(), "deploy");
    assert_eq!(exports[0].internal(), &Internal::Function(0));
    assert_eq!(exports[1].field(), "call");
    assert_eq!(exports[1].internal(), &Internal::Function(1));
    assert!(decoded.import_section().is_none());
    assert!(decoded.data_section().is_none());
    let bodies = decoded.code_section().unwrap().bodies();
    assert_eq!(bodies.len(), 2);
    assert_eq!(bodies[0].code().elements(), &[W::End]);
    assert_eq!(bodies[1].code().elements(), &[W::End]);
}

#[test]
fn dummy_code_has_the_base_size() {
    let module = dummy_code().unwrap();
    assert_eq!(module.code.len(), 47);
}

#[test]
fn dummy_code_bytes_are_exact() {
    let module = dummy_code().unwrap();
    let expected: Vec<u8> = vec![
        0x00, 0x61, 0x73, 0x6d, 0x01, 0x00, 0x00, 0x00, // magic, version
        0x01, 0x04, 0x01, 0x60, 0x00, 0x00, // one signature: () -> ()
        0x03, 0x03, 0x02, 0x00, 0x00, // two functions of signature 0
        0x07, 0x11, 0x02, // two exports
        0x06, b'd', b'e', b'p', b'l', b'o', b'y', 0x00, 0x00,
        0x04, b'c', b'a', b'l', b'l', 0x00, 0x01,
        0x0a, 0x07, 0x02, 0x02, 0x00, 0x0b, 0x02, 0x00, 0x0b, // two empty bodies
    ];
    assert_eq!(module.code, expected);
}

#[test]
fn hash_is_the_blake2_digest_of_the_code() {
    let module = dummy_code().unwrap();
    let expected = <sp_runtime::traits::BlakeTwo256 as sp_runtime::traits::Hash>::hash(&module.code);
    assert_eq!(&module.hash[..], expected.as_ref());
    assert_ne!(&module.hash[..], &module.code[..32]);
}

#[test]
fn identical_definitions_give_identical_modules() {
    let first = getter_code(&config(), "seal_caller", 40).unwrap();
    let second = getter_code(&config(), "seal_caller", 40).unwrap();
    assert_eq!(first.code, second.code);
    assert_eq!(first.hash, second.hash);
    let other = getter_code(&config(), "seal_caller", 41).unwrap();
    assert_ne!(first.code, other.code);
    assert_ne!(first.hash, other.hash);
}

#[test]
fn decoding_and_encoding_again_gives_the_same_bytes() {
    let modules = vec![
        dummy_code().unwrap(),
        sized_code(1024).unwrap(),
        getter_code(&config(), "seal_now", 7).unwrap(),
        hasher_code(&config(), "seal_hash_sha2_256", 3, 2048).unwrap(),
    ];
    for module in modules {
        let decoded = decode(&module.code);
        let again = parity_wasm::serialize(decoded).unwrap();
        assert_eq!(again, module.code);
    }
}

#[test]
fn sized_code_never_exceeds_the_target() {
    for target in [0u32, 46, 47, 52, 53, 59, 100, 1024, 4096, 65536] {
        let module = sized_code(target).unwrap();
        assert!(module.code.len() >= 47);
        if target >= 47 {
            assert!(module.code.len() as u32 <= target, "target {}", target);
        }
    }
}

#[test]
fn sized_code_repeats_the_expansion() {
    // (1024 - 47) / 6 - 1 = 161 expansions of four instructions each
    let module = sized_code(1024).unwrap();
    let decoded = decode(&module.code);
    let call = &decoded.code_section().unwrap().bodies()[1];
    assert_eq!(call.code().elements().len(), 161 * 4 + 1);
    assert_eq!(&call.code().elements()[..4], &[W::I32Const(0), W::If(BlockType::NoResult), W::Return, W::End]);
    // too small a target leaves the call body empty
    let least = sized_code(52).unwrap();
    assert_eq!(least.code.len(), 47);
}

#[test]
fn getter_module_calls_the_import_three_times() {
    let module = getter_code(&config(), "seal_caller", 3).unwrap();
    let decoded = decode(&module.code);
    let call = &decoded.code_section().unwrap().bodies()[1];
    assert_eq!(
        call.code().elements(),
        &[
            W::I32Const(4), W::I32Const(0), W::Call(0),
            W::I32Const(4), W::I32Const(0), W::Call(0),
            W::I32Const(4), W::I32Const(0), W::Call(0),
            W::End,
        ]
    );
    let sites = call.code().elements().iter().filter(|i| **i == W::Call(0)).count();
    assert_eq!(sites, 3);
    // the imports: the memory first, then the getter under the host's namespace
    let imports = decoded.import_section().unwrap().entries();
    assert_eq!(imports.len(), 2);
    assert_eq!(imports[0].module(), "env");
    assert_eq!(imports[0].field(), "memory");
    match imports[0].external() {
        External::Memory(memory) => {
            assert_eq!(memory.limits().initial(), 16);
            assert_eq!(memory.limits().maximum(), Some(16));
        }
        _ => panic!("the first import is the memory"),
    }
    assert_eq!(imports[1].module(), "seal0");
    assert_eq!(imports[1].field(), "seal_caller");
    assert_eq!(imports[1].external(), &External::Function(1));
    // the entry points follow the one imported function
    let exports = decoded.export_section().unwrap().entries();
    assert_eq!(exports[0].internal(), &Internal::Function(1));
    assert_eq!(exports[1].internal(), &Internal::Function(2));
    // the output buffer's size: 16 * 64 * 1024 - 4 = 1048572 = 0x000ffffc
    let data = decoded.data_section().unwrap().entries();
    assert_eq!(data.len(), 1);
    assert_eq!(data[0].value(), &[0xfc, 0xff, 0x0f, 0x00]);
    assert_eq!(data[0].offset().as_ref().unwrap().code(), &[W::I32Const(0), W::End]);
}

#[test]
fn hasher_module_passes_the_data_size() {
    let module = hasher_code(&config(), "seal_hash_blake2_256", 2, 2048).unwrap();
    let decoded = decode(&module.code);
    let call = &decoded.code_section().unwrap().bodies()[1];
    assert_eq!(
        call.code().elements(),
        &[
            W::I32Const(0), W::I32Const(2048), W::I32Const(0), W::Call(0),
            W::I32Const(0), W::I32Const(2048), W::I32Const(0), W::Call(0),
            W::End,
        ]
    );
    assert!(decoded.data_section().is_none());
    let types = decoded.type_section().unwrap().types();
    assert_eq!(types.len(), 2);
}

#[test]
fn equal_signatures_share_one_entry() {
    let definition = ModuleDefinition {
        data_segments: vec![DataSegment { offset: 8, value: vec![1, 2, 3] }, DataSegment { offset: 64, value: vec![] }],
        memory: Some(ImportedMemory { min_pages: 1, max_pages: 1 }),
        imported_functions: vec![
            ImportedFunction { name: "first", params: vec![ValueType::I32], return_type: None },
            ImportedFunction { name: "second", params: vec![], return_type: None },
            ImportedFunction { name: "third", params: vec![ValueType::I32], return_type: None },
            ImportedFunction { name: "fourth", params: vec![ValueType::I64], return_type: Some(ValueType::I32) },
        ],
        deploy_body: Some(body(vec![Instruction::Call(3), Instruction::Drop, Instruction::End])),
        call_body: Some(body_repeated(2, &[Instruction::Nop])),
    };
    let module = create_code(definition).unwrap();
    let decoded = decode(&module.code);
    let types = decoded.type_section().unwrap().types();
    assert_eq!(types.len(), 3);
    let imports = decoded.import_section().unwrap().entries();
    assert_eq!(imports.len(), 5);
    assert_eq!(imports[1].external(), &External::Function(1));
    assert_eq!(imports[2].external(), &External::Function(0));
    assert_eq!(imports[3].external(), &External::Function(1));
    assert_eq!(imports[4].external(), &External::Function(2));
    assert_eq!(imports[4].field(), "fourth");
    let exports = decoded.export_section().unwrap().entries();
    assert_eq!(exports[0].internal(), &Internal::Function(4));
    assert_eq!(exports[1].internal(), &Internal::Function(5));
    let data = decoded.data_section().unwrap().entries();
    assert_eq!(data.len(), 2);
    assert_eq!(data[0].value(), &[1, 2, 3]);
    assert_eq!(data[0].offset().as_ref().unwrap().code(), &[W::I32Const(8), W::End]);
    assert_eq!(data[1].offset().as_ref().unwrap().code(), &[W::I32Const(64), W::End]);
    let bodies = decoded.code_section().unwrap().bodies();
    assert_eq!(bodies[0].code().elements(), &[W::Call(3), W::Drop, W::End]);
    assert_eq!(bodies[1].code().elements(), &[W::Nop, W::Nop, W::End]);
    assert!(bodies[0].locals().is_empty());
}

#[test]
fn every_instruction_is_encoded_as_itself() {
    let definition = ModuleDefinition {
        call_body: Some(body(vec![
            Instruction::I32Const(-7),
            Instruction::I32Eqz,
            Instruction::If,
            Instruction::Nop,
            Instruction::Else,
            Instruction::Unreachable,
            Instruction::End,
            Instruction::I64Const(500_000),
            Instruction::Drop,
            Instruction::Call(0),
            Instruction::Return,
            Instruction::End,
        ])),
        ..Default::default()
    };
    let module = create_code(definition).unwrap();
    let decoded = decode(&module.code);
    assert_eq!(
        decoded.code_section().unwrap().bodies()[1].code().elements(),
        &[
            W::I32Const(-7), W::I32Eqz, W::If(BlockType::NoResult), W::Nop, W::Else, W::Unreachable,
            W::End, W::I64Const(500_000), W::Drop, W::Call(0), W::Return, W::End,
        ]
    );
}

#[test]
fn default_definition_is_empty() {
    let definition = ModuleDefinition::default();
    assert!(definition.data_segments.is_empty());
    assert!(definition.memory.is_none());
    assert!(definition.imported_functions.is_empty());
    assert!(definition.deploy_body.is_none());
    assert!(definition.call_body.is_none());
}

#[test]
fn code_errors_are_distinct() {
    assert_ne!(CodeError::TooLarge, CodeError::Encoding);
}
