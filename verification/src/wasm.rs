//! The module builder and the encoder of the `parity_wasm` crate.
//!
//! Nothing in this file is proved. Each function makes one call into
//! `parity_wasm`, and its contract says what that call does as the crate's
//! source shows it. What the encoder returns is not spelled out: it has the
//! name [`encoded`].

use vstd::prelude::*;
use crate::instructions::Instruction;
use crate::instructions::ValueType;
use crate::module::ExportEntry;
use crate::module::External;
use crate::module::FunctionType;
use crate::module::ImportEntry;
use crate::module::ModuleLayout;
use crate::module::Segment;
use crate::module::entry_signature;

verus! {

/// `parity_wasm::builder::ModuleBuilder`: the sections of a module under
/// construction.
#[verifier::external_type_specification]
#[verifier::external_body]
#[verifier::reject_recursive_types(F)]
pub struct ExModuleBuilder<F>(parity_wasm::builder::ModuleBuilder<F>);

/// `parity_wasm::builder::Identity`: the end of a chain of builders.
#[verifier::external_type_specification]
#[verifier::external_body]
pub struct ExIdentity(parity_wasm::builder::Identity);

/// `parity_wasm::elements::FuncBody`: the locals and the instructions of a
/// function.
#[verifier::external_type_specification]
#[verifier::external_body]
pub struct ExFuncBody(parity_wasm::elements::FuncBody);

/// `parity_wasm::elements::Error`: why a module could not be encoded.
#[verifier::external_type_specification]
#[verifier::external_body]
pub struct ExError(parity_wasm::elements::Error);

/// The instructions of a body, in order; `None` for a body that declares
/// locals or holds an instruction that [`Instruction`] has no variant for.
pub uninterp spec fn body_code(body: parity_wasm::elements::FuncBody) -> Option<Seq<Instruction>>;

/// The sections that a builder holds; `None` for a builder that holds
/// anything that [`ModuleLayout`] has no place for (a table, a global, a
/// start function, a memory of its own, a custom section).
pub uninterp spec fn module_content(builder: parity_wasm::builder::ModuleBuilder) -> Option<
    ModuleLayout,
>;

/// The bytes that `parity_wasm` encodes a module of this layout to; `None`
/// where its encoder reports an error.
pub uninterp spec fn encoded(layout: ModuleLayout) -> Option<Seq<u8>>;

/// `FuncBody::new` on no locals and no instructions.
#[verifier::external_body]
pub(crate) fn new_body() -> (body: parity_wasm::elements::FuncBody)
    ensures
        body_code(body) == Some(Seq::<Instruction>::empty()),
{
    parity_wasm::elements::FuncBody::new(
        Vec::new(),
        parity_wasm::elements::Instructions::new(Vec::new()),
    )
}

/// `Vec::push` on the instructions of a body (`FuncBody::code_mut`,
/// `Instructions::elements_mut`): the instruction is appended.
#[verifier::external_body]
pub(crate) fn push_instruction(body: &mut parity_wasm::elements::FuncBody, instruction: Instruction)
    requires
        body_code(*old(body)) is Some,
    ensures
        body_code(*final(body)) == Some(body_code(*old(body))->0.push(instruction)),
{
    body.code_mut().elements_mut().push(match instruction {
        Instruction::Unreachable => parity_wasm::elements::Instruction::Unreachable,
        Instruction::Nop => parity_wasm::elements::Instruction::Nop,
        Instruction::If => parity_wasm::elements::Instruction::If(parity_wasm::elements::BlockType::NoResult),
        Instruction::Else => parity_wasm::elements::Instruction::Else,
        Instruction::End => parity_wasm::elements::Instruction::End,
        Instruction::Return => parity_wasm::elements::Instruction::Return,
        Instruction::Call(index) => parity_wasm::elements::Instruction::Call(index),
        Instruction::Drop => parity_wasm::elements::Instruction::Drop,
        Instruction::I32Const(value) => parity_wasm::elements::Instruction::I32Const(value),
        Instruction::I64Const(value) => parity_wasm::elements::Instruction::I64Const(value),
        Instruction::I32Eqz => parity_wasm::elements::Instruction::I32Eqz,
    });
}

/// `parity_wasm::builder::module`: a builder that holds nothing.
#[verifier::external_body]
pub(crate) fn new_module() -> (builder: parity_wasm::builder::ModuleBuilder)
    ensures
        module_content(builder) == Some(ModuleLayout::empty()),
{
    parity_wasm::builder::module()
}

/// `ModuleBuilder::function` with its chain: an internal function without
/// parameters and result is added. Its signature is looked up among the
/// signatures and appended if absent, its signature index and its body are
/// appended to their sections.
#[verifier::external_body]
pub(crate) fn with_function(
    builder: parity_wasm::builder::ModuleBuilder,
    body: parity_wasm::elements::FuncBody,
) -> (extended: parity_wasm::builder::ModuleBuilder)
    requires
        module_content(builder) is Some,
        body_code(body) is Some,
        module_content(builder)->0.types.len() < u32::MAX,
        module_content(builder)->0.functions.len() < u32::MAX,
        module_content(builder)->0.code.len() < u32::MAX,
    ensures
        module_content(extended) == Some(
            module_content(builder)->0.with_function(entry_signature(), body_code(body)->0),
        ),
{
    builder.function().signature().with_params(Vec::new()).with_return_type(None).build().with_body(
        body,
    ).build()
}

/// `ModuleBuilder::export` with its chain: an export of the function with
/// the given index under the given name is appended.
#[verifier::external_body]
pub(crate) fn with_export(
    builder: parity_wasm::builder::ModuleBuilder,
    field: &str,
    function: u32,
) -> (extended: parity_wasm::builder::ModuleBuilder)
    requires
        module_content(builder) is Some,
    ensures
        module_content(extended) == Some(
            module_content(builder)->0.with_export((ExportEntry { field: field@, function })),
        ),
{
    builder.export().field(field).internal().func(function).build()
}

/// `ModuleBuilder::import` with its chain, ending in
/// `ImportExternalBuilder::memory`: an import of a memory with the given
/// bounds is appended.
#[verifier::external_body]
pub(crate) fn with_memory_import(
    builder: parity_wasm::builder::ModuleBuilder,
    module: &str,
    field: &str,
    min_pages: u32,
    max_pages: u32,
) -> (extended: parity_wasm::builder::ModuleBuilder)
    requires
        module_content(builder) is Some,
    ensures
        module_content(extended) == Some(
            module_content(builder)->0.with_import(
                (ImportEntry {
                    module: module@,
                    field: field@,
                    external: External::Memory(min_pages, Some(max_pages)),
                }),
            ),
        ),
{
    builder.import().module(module).field(field).external().memory(min_pages, Some(max_pages)).build()
}

/// `ModuleBuilder::push_signature` on the signature that
/// `parity_wasm::builder::signature` builds: the signature is looked up among
/// the signatures and appended if absent; its index is returned.
#[verifier::external_body]
pub(crate) fn push_signature(
    builder: &mut parity_wasm::builder::ModuleBuilder,
    params: &Vec<ValueType>,
    return_type: Option<ValueType>,
) -> (index: u32)
    requires
        module_content(*old(builder)) is Some,
        module_content(*old(builder))->0.types.len() < u32::MAX,
    ensures
        module_content(*final(builder)) == Some(
            module_content(*old(builder))->0.with_signature(
                (FunctionType { params: params@, return_type }),
            ),
        ),
        index == crate::module::position(
            module_content(*old(builder))->0.types,
            (FunctionType { params: params@, return_type }),
        ),
{
    let params = params.iter().map(|t| match t {
        ValueType::I32 => parity_wasm::elements::ValueType::I32,
        ValueType::I64 => parity_wasm::elements::ValueType::I64,
    }).collect();
    let return_type = return_type.map(|t| match t {
        ValueType::I32 => parity_wasm::elements::ValueType::I32,
        ValueType::I64 => parity_wasm::elements::ValueType::I64,
    });
    builder.push_signature(
        parity_wasm::builder::signature().with_params(params).with_return_type(return_type).build_sig(),
    )
}

/// `ModuleBuilder::import` with its chain, ending in
/// `ImportBuilder::with_external` on a function: an import of a function
/// with the signature at the given index is appended.
#[verifier::external_body]
pub(crate) fn with_function_import(
    builder: parity_wasm::builder::ModuleBuilder,
    module: &str,
    field: &str,
    signature: u32,
) -> (extended: parity_wasm::builder::ModuleBuilder)
    requires
        module_content(builder) is Some,
    ensures
        module_content(extended) == Some(
            module_content(builder)->0.with_import(
                (ImportEntry { module: module@, field: field@, external: External::Function(signature) }),
            ),
        ),
{
    builder.import().module(module).field(field).with_external(
        parity_wasm::elements::External::Function(signature),
    ).build()
}

/// `ModuleBuilder::data` with its chain: a segment of the first memory with
/// the given bytes is appended, its offset the given 32-bit constant.
#[verifier::external_body]
pub(crate) fn with_data(
    builder: parity_wasm::builder::ModuleBuilder,
    offset: i32,
    value: Vec<u8>,
) -> (extended: parity_wasm::builder::ModuleBuilder)
    requires
        module_content(builder) is Some,
    ensures
        module_content(extended) == Some(
            module_content(builder)->0.with_data((Segment { offset, value: value@ })),
        ),
{
    builder.data().offset(parity_wasm::elements::Instruction::I32Const(offset)).value(value).build()
}

/// `ModuleBuilder::build` and `Module::to_bytes`: the module that the builder
/// holds is encoded. The encoder stops the program on a count or a length
/// beyond 32 bits; the bound on the layout's weight keeps every one of them
/// below that.
#[verifier::external_body]
pub(crate) fn to_bytes(builder: parity_wasm::builder::ModuleBuilder) -> (bytes: Result<
    Vec<u8>,
    parity_wasm::elements::Error,
>)
    requires
        module_content(builder) is Some,
        module_content(builder)->0.weight() <= u32::MAX,
    ensures
        match encoded(module_content(builder)->0) {
            Some(code) => bytes is Ok && bytes->Ok_0@ == code,
            None => bytes is Err,
        },
{
    builder.build().to_bytes()
}

} // verus!
