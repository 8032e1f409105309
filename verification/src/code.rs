//! From a module definition to the encoded module and its content hash.

use vstd::prelude::*;
use vstd::utf8::encode_utf8;
use vstd::utf8::is_ascii_chars_encode_utf8;
use crate::hashing::blake2_256;
use crate::hashing::hash;
use crate::hashing::le_bytes;
use crate::hashing::spec_le_bytes;
use crate::config::max_pages;
use crate::config::HostConfig;
use crate::instructions::body_repeated;
use crate::instructions::cycle;
use crate::instructions::ValueType;
use crate::module::ImportedMemory;
use crate::hashing::CodeHash;
use crate::instructions::Body;
use crate::instructions::Instruction;
use crate::module::body_or_empty;
use crate::module::body_view;
use crate::module::body_weight;
use crate::module::entry_signature;
use crate::module::export_weight;
use crate::module::function_import;
use crate::module::import_weight;
use crate::module::layout;
use crate::module::memory_import;
use crate::module::memory_imports;
use crate::module::position;
use crate::module::segment_of;
use crate::module::segment_weight;
use crate::module::signature_of;
use crate::module::signature_table;
use crate::module::total;
use crate::module::type_weight;
use crate::module::with_type;
use crate::module::DataSegment;
use crate::module::DataSegmentView;
use crate::module::FunctionType;
use crate::module::ImportEntry;
use crate::module::ImportedFunction;
use crate::module::ImportedFunctionView;
use crate::module::ModuleDefinition;
use crate::module::ModuleDefinitionView;
use crate::module::ModuleLayout;
use crate::module::Segment;
use crate::wasm::body_code;
use crate::wasm::encoded;
use crate::wasm::module_content;
use crate::wasm::new_body;
use crate::wasm::new_module;
use crate::wasm::push_instruction;
use crate::wasm::push_signature;
use crate::wasm::to_bytes;
use crate::wasm::with_data;
use crate::wasm::with_export;
use crate::wasm::with_function;
use crate::wasm::with_function_import;
use crate::wasm::with_memory_import;

verus! {

/// An encoded module and the hash that addresses it.
#[derive(Debug)]
pub struct WasmModule {
    /// The bytes of the module.
    pub code: Vec<u8>,
    /// The content hash of `code`.
    pub hash: CodeHash,
}

/// An encoded module as contracts see it.
pub struct WasmModuleView {
    pub code: Seq<u8>,
    pub hash: Seq<u8>,
}

impl View for WasmModule {
    type V = WasmModuleView;

    open spec fn view(&self) -> WasmModuleView {
        WasmModuleView { code: self.code@, hash: self.hash@ }
    }
}

impl Clone for WasmModule {
    fn clone(&self) -> (copy: WasmModule)
        ensures
            copy@ == self@,
    {
        WasmModule { code: copy_bytes(&self.code), hash: self.hash }
    }
}

/// Why a definition has no encoded module.
#[derive(Clone, Copy, Debug, PartialEq, Eq, Structural)]
pub enum CodeError {
    /// The definition is so large that a count or a length of its encoding
    /// would not fit in 32 bits.
    TooLarge,
    /// The encoder reported an error.
    Encoding,
}

/// A copy of the given bytes.
pub fn copy_bytes(bytes: &Vec<u8>) -> (copy: Vec<u8>)
    ensures
        copy@ == bytes@,
{
    let mut copy: Vec<u8> = Vec::new();
    let mut at: usize = 0;
    while at < bytes.len()
        invariant
            at <= bytes.len(),
            copy@ == bytes@.subrange(0, at as int),
        decreases bytes.len() - at,
    {
        copy.push(bytes[at]);
        at += 1;
        proof {
            assert(copy@ =~= bytes@.subrange(0, at as int));
        }
    }
    proof {
        assert(copy@ =~= bytes@);
    }
    copy
}

/// What an imported function adds to the weight of a definition.
pub open spec fn import_cost(function: ImportedFunctionView) -> nat {
    128 + encode_utf8(function.name).len() + function.params.len()
}

/// What a data segment adds to the weight of a definition.
pub open spec fn data_cost(data: DataSegmentView) -> nat {
    32 + data.value.len()
}

/// What the imported functions add to the weight of a definition.
pub open spec fn import_costs(functions: Seq<ImportedFunctionView>) -> Seq<nat> {
    Seq::new(functions.len(), |k: int| import_cost(functions[k]))
}

/// What the data segments add to the weight of a definition.
pub open spec fn data_costs(segments: Seq<DataSegmentView>) -> Seq<nat> {
    Seq::new(segments.len(), |i: int| data_cost(segments[i]))
}

/// The weight of a definition: a number that grows with every import, every
/// parameter, every instruction and every byte of data, and that exceeds the
/// number of bytes of the encoded module.
pub open spec fn definition_weight(definition: ModuleDefinitionView) -> nat {
    1024 + total(import_costs(definition.imported_functions)) + total(
        data_costs(definition.data_segments),
    ) + 16 * body_or_empty(definition.deploy_body).len() + 16 * body_or_empty(
        definition.call_body,
    ).len()
}

/// What [`create_code`] returns for a definition.
pub open spec fn spec_create_code(definition: ModuleDefinitionView) -> Result<
    WasmModuleView,
    CodeError,
> {
    if definition_weight(definition) > u32::MAX {
        Err(CodeError::TooLarge)
    } else {
        match encoded(layout(definition)) {
            Some(code) => Ok(WasmModuleView { code, hash: blake2_256(code) }),
            None => Err(CodeError::Encoding),
        }
    }
}

/// The view of what [`create_code`] returns.
pub open spec fn outcome(result: Result<WasmModule, CodeError>) -> Result<WasmModuleView, CodeError> {
    match result {
        Ok(module) => Ok(module@),
        Err(error) => Err(error),
    }
}

/// The sum grows by what is appended.
proof fn lemma_total_push(weights: Seq<nat>, weight: nat)
    ensures
        total(weights.push(weight)) == total(weights) + weight,
{
    assert(weights.push(weight).drop_last() =~= weights);
}

/// The sum of a part from the start is at most the sum of the whole.
proof fn lemma_total_prefix(weights: Seq<nat>, count: int)
    requires
        0 <= count <= weights.len(),
    ensures
        total(weights.subrange(0, count)) <= total(weights),
    decreases weights.len(),
{
    if count < weights.len() {
        lemma_total_prefix(weights.drop_last(), count);
        assert(weights.drop_last().subrange(0, count) =~= weights.subrange(0, count));
    } else {
        assert(weights.subrange(0, count) =~= weights);
    }
}

/// The sum is at least the number of its terms times a common lower bound.
proof fn lemma_total_at_least(weights: Seq<nat>, least: nat)
    requires
        forall|i: int| 0 <= i < weights.len() ==> weights[i] >= least,
    ensures
        total(weights) >= weights.len() * least,
    decreases weights.len(),
{
    if weights.len() > 0 {
        lemma_total_at_least(weights.drop_last(), least);
        assert(weights.len() * least == (weights.len() - 1) * least + least) by (nonlinear_arith);
    } else {
        assert(0 * least == 0) by (nonlinear_arith);
    }
}

/// The weights of the given signatures.
spec fn type_weights(types: Seq<FunctionType>) -> Seq<nat> {
    Seq::new(types.len(), |i: int| type_weight(types[i]))
}

/// The weights of the given imports.
spec fn import_weights(imports: Seq<ImportEntry>) -> Seq<nat> {
    Seq::new(imports.len(), |i: int| import_weight(imports[i]))
}

/// The weights of the given segments.
spec fn segment_weights(data: Seq<Segment>) -> Seq<nat> {
    Seq::new(data.len(), |i: int| segment_weight(data[i]))
}

/// The position of a signature is at most the number of signatures, and a
/// signature is found at its position.
proof fn lemma_position(types: Seq<FunctionType>, signature: FunctionType)
    ensures
        position(types, signature) <= types.len(),
        position(types, signature) < types.len() ==> types[position(types, signature) as int]
            == signature,
        with_type(types, signature).len() <= types.len() + 1,
        with_type(types, signature).len() >= types.len(),
    decreases types.len(),
{
    if types.len() > 0 && types[0] != signature {
        lemma_position(types.drop_first(), signature);
    }
}

/// The signatures after `count` imports: at most one more than the imports,
/// at least one, and no heavier than the entry signature and the imports'
/// signatures together.
proof fn lemma_signature_table(functions: Seq<ImportedFunctionView>, count: nat)
    requires
        count <= functions.len(),
    ensures
        1 <= signature_table(functions, count).len() <= count + 1,
        total(type_weights(signature_table(functions, count))) + total(
            import_weights(Seq::new(count, |k: int| function_import(functions, k))),
        ) + 5 * count <= 16 + total(import_costs(functions).subrange(0, count as int)) + count
            * encode_utf8(crate::module::host_namespace()).len(),
    decreases count,
{
    let namespace = encode_utf8(crate::module::host_namespace()).len();
    if count == 0 {
        assert(type_weights(signature_table(functions, 0)) =~= Seq::<nat>::empty().push(16nat));
        lemma_total_push(Seq::<nat>::empty(), 16);
        assert(import_weights(Seq::new(0nat, |k: int| function_import(functions, k)))
            =~= Seq::<nat>::empty());
        assert(import_costs(functions).subrange(0, 0) =~= Seq::<nat>::empty());
        assert(0 * namespace == 0) by (nonlinear_arith);
    } else {
        let before = (count - 1) as nat;
        lemma_signature_table(functions, before);
        let table = signature_table(functions, before);
        let signature = signature_of(functions[before as int]);
        lemma_position(table, signature);
        if position(table, signature) < table.len() {
        } else {
            assert(type_weights(table.push(signature)) =~= type_weights(table).push(
                type_weight(signature),
            ));
            lemma_total_push(type_weights(table), type_weight(signature));
        }
        let imports_before = Seq::new(before, |k: int| function_import(functions, k));
        let imports_now = Seq::new(count, |k: int| function_import(functions, k));
        let entry = function_import(functions, before as int);
        assert(import_weights(imports_now) =~= import_weights(imports_before).push(
            import_weight(entry),
        ));
        lemma_total_push(import_weights(imports_before), import_weight(entry));
        assert(import_costs(functions).subrange(0, count as int) =~= import_costs(
            functions,
        ).subrange(0, before as int).push(import_cost(functions[before as int])));
        lemma_total_push(
            import_costs(functions).subrange(0, before as int),
            import_cost(functions[before as int]),
        );
        assert(count * namespace == before * namespace + namespace) by (nonlinear_arith)
            requires
                count == before + 1,
        ;
    }
}

/// The lengths in bytes of the names that every generated module holds.
proof fn lemma_fixed_names()
    ensures
        encode_utf8(crate::module::host_namespace()).len() == 5,
        encode_utf8("env"@).len() == 3,
        encode_utf8("memory"@).len() == 6,
        encode_utf8("deploy"@).len() == 6,
        encode_utf8("call"@).len() == 4,
{
    reveal_strlit("seal0");
    reveal_strlit("env");
    reveal_strlit("memory");
    reveal_strlit("deploy");
    reveal_strlit("call");
    is_ascii_chars_encode_utf8("seal0"@);
    is_ascii_chars_encode_utf8("env"@);
    is_ascii_chars_encode_utf8("memory"@);
    is_ascii_chars_encode_utf8("deploy"@);
    is_ascii_chars_encode_utf8("call"@);
}

/// The layout of a definition weighs no more than the definition, and its
/// sections are no longer than the definition's lists and one more.
pub proof fn lemma_layout_weight(definition: ModuleDefinitionView)
    ensures
        layout(definition).weight() <= definition_weight(definition),
        128 * definition.imported_functions.len() <= definition_weight(definition),
{
    let functions = definition.imported_functions;
    let count = functions.len();
    let it = layout(definition);
    lemma_fixed_names();
    lemma_signature_table(functions, count);
    assert(import_costs(functions).subrange(0, count as int) =~= import_costs(functions));
    assert(type_weights(it.types) =~= Seq::new(it.types.len(), |i: int| type_weight(it.types[i])));
    // imports: the memory, if any, then the functions
    let function_imports = Seq::new(count, |k: int| function_import(functions, k));
    match definition.memory {
        Some(memory) => {
            let entry = memory_import(memory);
            assert(it.imports =~= seq![entry] + function_imports);
            lemma_total_front(import_weights(function_imports), import_weight(entry));
            assert(import_weights(it.imports) =~= seq![import_weight(entry)] + import_weights(
                function_imports,
            ));
        },
        None => {
            assert(it.imports =~= function_imports);
        },
    }
    assert(import_weights(it.imports) =~= Seq::new(
        it.imports.len(),
        |i: int| import_weight(it.imports[i]),
    ));
    // exports
    let exports = Seq::new(it.exports.len(), |i: int| export_weight(it.exports[i]));
    assert(exports =~= Seq::<nat>::empty().push(22nat).push(20nat));
    lemma_total_push(Seq::<nat>::empty(), 22);
    lemma_total_push(Seq::<nat>::empty().push(22nat), 20);
    // bodies
    let deploy = body_or_empty(definition.deploy_body);
    let call = body_or_empty(definition.call_body);
    let bodies = Seq::new(it.code.len(), |i: int| body_weight(it.code[i]));
    assert(bodies =~= Seq::<nat>::empty().push(body_weight(deploy)).push(body_weight(call)));
    lemma_total_push(Seq::<nat>::empty(), body_weight(deploy));
    lemma_total_push(Seq::<nat>::empty().push(body_weight(deploy)), body_weight(call));
    // data
    lemma_segments_weight(definition.data_segments, definition.data_segments.len());
    assert(definition.data_segments.subrange(0, definition.data_segments.len() as int)
        =~= definition.data_segments);
    assert(segment_weights(it.data) =~= Seq::new(
        it.data.len(),
        |i: int| segment_weight(it.data[i]),
    ));
    assert(segment_weights(it.data) =~= segment_weights(
        Seq::new(
            definition.data_segments.len(),
            |i: int| segment_of(definition.data_segments[i]),
        ),
    ));
    assert(count * 5 == 5 * count) by (nonlinear_arith);
    // every import costs at least 128
    assert forall|i: int| 0 <= i < import_costs(functions).len() implies import_costs(
        functions,
    )[i] >= 128 by {}
    lemma_total_at_least(import_costs(functions), 128);
    assert(count * 128 == 128 * count) by (nonlinear_arith);
}

/// The sum of a sequence with one more term in front.
proof fn lemma_total_front(weights: Seq<nat>, weight: nat)
    ensures
        total(seq![weight] + weights) == weight + total(weights),
    decreases weights.len(),
{
    if weights.len() == 0 {
        assert(seq![weight] + weights =~= Seq::<nat>::empty().push(weight));
        lemma_total_push(Seq::<nat>::empty(), weight);
    } else {
        lemma_total_front(weights.drop_last(), weight);
        assert((seq![weight] + weights).drop_last() =~= seq![weight] + weights.drop_last());
    }
}

/// The segments of a layout weigh what the definition's data cost.
proof fn lemma_segments_weight(segments: Seq<DataSegmentView>, count: nat)
    requires
        count <= segments.len(),
    ensures
        total(segment_weights(Seq::new(count, |i: int| segment_of(segments[i])))) == total(
            data_costs(segments.subrange(0, count as int)),
        ),
    decreases count,
{
    let now = segment_weights(Seq::new(count, |i: int| segment_of(segments[i])));
    let costs = data_costs(segments.subrange(0, count as int));
    if count == 0 {
        assert(now =~= Seq::<nat>::empty());
        assert(costs =~= Seq::<nat>::empty());
    } else {
        let before = (count - 1) as nat;
        lemma_segments_weight(segments, before);
        let earlier = segment_weights(Seq::new(before, |i: int| segment_of(segments[i])));
        let earlier_costs = data_costs(segments.subrange(0, before as int));
        assert(now =~= earlier.push(segment_weight(segment_of(segments[before as int]))));
        assert(costs =~= earlier_costs.push(data_cost(segments[before as int])));
        lemma_total_push(earlier, segment_weight(segment_of(segments[before as int])));
        lemma_total_push(earlier_costs, data_cost(segments[before as int]));
    }
}

/// The layout of a definition of which only the first `imports` imported
/// functions and the first `segments` data segments are in place.
spec fn layout_prefix(definition: ModuleDefinitionView, imports: nat, segments: nat) -> ModuleLayout {
    let imported = definition.imported_functions;
    ModuleLayout {
        types: signature_table(imported, imports),
        imports: memory_imports(definition.memory) + Seq::new(
            imports,
            |k: int| function_import(imported, k),
        ),
        data: Seq::new(segments, |i: int| segment_of(definition.data_segments[i])),
        ..layout(definition)
    }
}

/// Whether the definition is light enough to be encoded.
fn definition_fits(definition: &ModuleDefinition) -> (fits: bool)
    ensures
        fits == (definition_weight(definition@) <= u32::MAX),
{
    let limit: u128 = 0xffff_ffff;
    let deploy: usize = match &definition.deploy_body {
        Some(body) => body.instructions.len(),
        None => 1,
    };
    let call: usize = match &definition.call_body {
        Some(body) => body.instructions.len(),
        None => 1,
    };
    let ghost functions = definition@.imported_functions;
    let ghost segments = definition@.data_segments;
    proof {
        assert(Body::spec_empty().len() == 1);
        assert(deploy == body_or_empty(definition@.deploy_body).len());
        assert(call == body_or_empty(definition@.call_body).len());
    }
    let mut weight: u128 = 1024 + 16 * (deploy as u128) + 16 * (call as u128);
    if weight > limit {
        return false;
    }
    let mut k: usize = 0;
    proof {
        assert(import_costs(functions).subrange(0, 0) =~= Seq::<nat>::empty());
    }
    while k < definition.imported_functions.len()
        invariant
            k <= definition.imported_functions.len(),
            functions == definition@.imported_functions,
            limit == 0xffff_ffff,
            weight <= limit,
            deploy == body_or_empty(definition@.deploy_body).len(),
            call == body_or_empty(definition@.call_body).len(),
            weight == 1024 + 16 * deploy + 16 * call + total(
                import_costs(functions).subrange(0, k as int),
            ),
        decreases definition.imported_functions.len() - k,
    {
        let function = &definition.imported_functions[k];
        let name = function.name.as_bytes();
        let cost: u128 = 128 + name.len() as u128 + function.params.len() as u128;
        proof {
            assert(functions[k as int] == definition.imported_functions@[k as int]@);
            assert(cost == import_cost(functions[k as int]));
            assert(import_costs(functions).subrange(0, k + 1) =~= import_costs(functions).subrange(
                0,
                k as int,
            ).push(cost as nat));
            lemma_total_push(import_costs(functions).subrange(0, k as int), cost as nat);
        }
        weight = weight + cost;
        k += 1;
        if weight > limit {
            proof {
                lemma_total_prefix(import_costs(functions), k as int);
            }
            return false;
        }
    }
    proof {
        assert(import_costs(functions).subrange(0, k as int) =~= import_costs(functions));
        assert(data_costs(segments).subrange(0, 0) =~= Seq::<nat>::empty());
    }
    let mut i: usize = 0;
    while i < definition.data_segments.len()
        invariant
            i <= definition.data_segments.len(),
            segments == definition@.data_segments,
            limit == 0xffff_ffff,
            weight <= limit,
            functions == definition@.imported_functions,
            deploy == body_or_empty(definition@.deploy_body).len(),
            call == body_or_empty(definition@.call_body).len(),
            weight == 1024 + 16 * deploy + 16 * call + total(import_costs(functions)) + total(
                data_costs(segments).subrange(0, i as int),
            ),
        decreases definition.data_segments.len() - i,
    {
        let cost: u128 = 32 + definition.data_segments[i].value.len() as u128;
        proof {
            assert(segments[i as int] == definition.data_segments@[i as int]@);
            assert(data_costs(segments).subrange(0, i + 1) =~= data_costs(segments).subrange(
                0,
                i as int,
            ).push(cost as nat));
            lemma_total_push(data_costs(segments).subrange(0, i as int), cost as nat);
        }
        weight = weight + cost;
        i += 1;
        if weight > limit {
            proof {
                lemma_total_prefix(data_costs(segments), i as int);
            }
            return false;
        }
    }
    proof {
        assert(data_costs(segments).subrange(0, i as int) =~= data_costs(segments));
    }
    true
}

/// The body as the module builder takes it; the empty body for none.
fn builder_body(body: &Option<Body>) -> (built: parity_wasm::elements::FuncBody)
    ensures
        body_code(built) == Some(body_or_empty(body_view(*body))),
{
    let mut built = new_body();
    match body {
        Some(body) => {
            let mut at: usize = 0;
            proof {
                assert(body@.subrange(0, 0) =~= Seq::<Instruction>::empty());
            }
            while at < body.instructions.len()
                invariant
                    at <= body.instructions.len(),
                    body_code(built) == Some(body@.subrange(0, at as int)),
                decreases body.instructions.len() - at,
            {
                push_instruction(&mut built, body.instructions[at]);
                at += 1;
                proof {
                    assert(body@.subrange(0, at as int) =~= body@.subrange(0, at - 1).push(
                        body@[at - 1],
                    ));
                }
            }
            proof {
                assert(body@.subrange(0, at as int) =~= body@);
            }
        },
        None => {
            push_instruction(&mut built, Instruction::End);
            proof {
                assert(Seq::<Instruction>::empty().push(Instruction::End) =~= Body::spec_empty());
            }
        },
    }
    built
}

/// Assembles and encodes the module that a definition describes, and hashes
/// the bytes.
///
/// The module's only exports are `deploy` and `call`. They are bound to the
/// two internal functions, which come right after the imported functions, so
/// that `Call(k)` in a body addresses the imported function at position `k`.
/// A requested memory is imported as `env.memory`; the imported functions
/// are taken from the host's namespace in the order of the definition. Every
/// data segment initialises the memory at its offset.
pub fn create_code(definition: ModuleDefinition) -> (module: Result<WasmModule, CodeError>)
    ensures
        outcome(module) == spec_create_code(definition@),
{
    if !definition_fits(&definition) {
        return Err(CodeError::TooLarge);
    }
    let ghost view = definition@;
    let ghost imported = view.imported_functions;
    proof {
        lemma_layout_weight(view);
    }
    let count: usize = definition.imported_functions.len();
    let func_offset: u32 = count as u32;
    let deploy = builder_body(&definition.deploy_body);
    let call = builder_body(&definition.call_body);
    let mut builder = new_module();
    proof {
        lemma_position(Seq::<FunctionType>::empty(), entry_signature());
        assert(with_type(Seq::<FunctionType>::empty(), entry_signature()) =~= seq![
            entry_signature(),
        ]);
    }
    builder = with_function(builder, deploy);
    proof {
        assert(seq![entry_signature()][0] == entry_signature());
        assert(position(seq![entry_signature()], entry_signature()) == 0);
    }
    builder = with_function(builder, call);
    builder = with_export(builder, "deploy", func_offset);
    builder = with_export(builder, "call", func_offset + 1);
    proof {
        let content = module_content(builder)->0;
        assert(content.functions =~= seq![0u32, 0u32]);
        assert(content.exports =~= layout(view).exports);
        assert(content.code =~= layout(view).code);
        assert(content.imports =~= Seq::<ImportEntry>::empty());
        assert(content.data =~= Seq::<Segment>::empty());
        assert(content.types =~= signature_table(imported, 0));
    }
    match definition.memory {
        Some(memory) => {
            builder =
            with_memory_import(builder, "env", "memory", memory.min_pages, memory.max_pages);
        },
        None => {},
    }
    proof {
        let content = module_content(builder)->0;
        assert(content.imports =~= layout_prefix(view, 0, 0).imports);
        assert(content.data =~= layout_prefix(view, 0, 0).data);
        assert(content == layout_prefix(view, 0, 0));
    }
    let mut k: usize = 0;
    while k < definition.imported_functions.len()
        invariant
            k <= definition.imported_functions.len(),
            view == definition@,
            imported == view.imported_functions,
            128 * imported.len() <= u32::MAX,
            module_content(builder) == Some(layout_prefix(view, k as nat, 0)),
        decreases definition.imported_functions.len() - k,
    {
        let function = &definition.imported_functions[k];
        proof {
            lemma_signature_table(imported, k as nat);
            assert(imported[k as int] == function@);
        }
        let signature = push_signature(&mut builder, &function.params, function.return_type);
        builder = with_function_import(builder, "seal0", function.name, signature);
        k += 1;
        proof {
            let content = module_content(builder)->0;
            let next = layout_prefix(view, k as nat, 0);
            assert(signature_of(function@) == (FunctionType {
                params: function.params@,
                return_type: function.return_type,
            }));
            assert(content.types == next.types);
            assert(content.imports =~= next.imports);
            assert(content == next);
        }
    }
    let mut i: usize = 0;
    while i < definition.data_segments.len()
        invariant
            i <= definition.data_segments.len(),
            view == definition@,
            module_content(builder) == Some(
                layout_prefix(view, view.imported_functions.len(), i as nat),
            ),
        decreases definition.data_segments.len() - i,
    {
        let data = &definition.data_segments[i];
        let value = copy_bytes(&data.value);
        builder = with_data(builder, data.offset as i32, value);
        i += 1;
        proof {
            let content = module_content(builder)->0;
            let next = layout_prefix(view, view.imported_functions.len(), i as nat);
            assert(view.data_segments[i - 1] == data@);
            assert(content.data =~= next.data);
            assert(content == next);
        }
    }
    proof {
        let whole = layout_prefix(view, view.imported_functions.len(), view.data_segments.len());
        assert(whole.data =~= layout(view).data);
        assert(whole.imports =~= layout(view).imports);
        assert(whole == layout(view));
    }
    match to_bytes(builder) {
        Ok(code) => {
            let hash = hash(&code);
            Ok(WasmModule { code, hash })
        },
        Err(_) => Err(CodeError::Encoding),
    }
}

/// The module that does nothing: no imports, no data, both entry points
/// empty.
pub fn dummy_code() -> (module: Result<WasmModule, CodeError>)
    ensures
        outcome(module) == spec_create_code(ModuleDefinitionView::empty()),
{
    create_code(ModuleDefinition::default())
}

/// The four instructions that [`sized_code`] repeats: a conditional return
/// that is never taken.
pub open spec fn expansion() -> Seq<Instruction> {
    seq![Instruction::I32Const(0), Instruction::If, Instruction::Return, Instruction::End]
}

/// The number of times [`sized_code`] repeats its expansion: one less than
/// fit into the target once the 47 bytes of the bare module are taken off,
/// at six bytes each.
pub open spec fn expansions(target_bytes: u32) -> nat {
    let room: int = if target_bytes >= 47 {
        (target_bytes - 47) / 6
    } else {
        0
    };
    if room >= 1 {
        (room - 1) as nat
    } else {
        0
    }
}

/// The definition that [`sized_code`] encodes.
pub open spec fn sized_definition(target_bytes: u32) -> ModuleDefinitionView {
    ModuleDefinitionView {
        call_body: Some(cycle(expansion(), expansions(target_bytes)).push(Instruction::End)),
        ..ModuleDefinitionView::empty()
    }
}

/// A module of about `target_bytes` bytes, and never more: its `call` entry
/// point repeats a conditional return.
pub fn sized_code(target_bytes: u32) -> (module: Result<WasmModule, CodeError>)
    ensures
        outcome(module) == spec_create_code(sized_definition(target_bytes)),
{
    let count: u32 = (target_bytes.saturating_sub(47) / 6).saturating_sub(1);
    let mut pattern: Vec<Instruction> = Vec::new();
    pattern.push(Instruction::I32Const(0));
    pattern.push(Instruction::If);
    pattern.push(Instruction::Return);
    pattern.push(Instruction::End);
    proof {
        assert(pattern@ =~= expansion());
        assert(count == expansions(target_bytes));
    }
    let mut definition = ModuleDefinition::default();
    definition.call_body = Some(body_repeated(count, pattern.as_slice()));
    proof {
        assert(definition@ == sized_definition(target_bytes));
    }
    create_code(definition)
}

/// The number of bytes of the largest memory of `pages` pages, less the four
/// bytes that hold this very number.
pub open spec fn output_room(pages: u32) -> int {
    pages * 64 * 1024 - 4
}

/// What a getter of the host's API is called with: the address of the
/// output buffer, the address of the buffer's length, then the call.
pub open spec fn getter_call() -> Seq<Instruction> {
    seq![Instruction::I32Const(4), Instruction::I32Const(0), Instruction::Call(0)]
}

/// The definition that [`getter_code`] encodes.
pub open spec fn getter_definition(pages: u32, getter_name: Seq<char>, repeat: u32) -> ModuleDefinitionView {
    ModuleDefinitionView {
        memory: Some(ImportedMemory { min_pages: pages, max_pages: pages }),
        imported_functions: seq![
            ImportedFunctionView {
                name: getter_name,
                params: seq![ValueType::I32, ValueType::I32],
                return_type: None,
            },
        ],
        data_segments: seq![
            DataSegmentView { offset: 0, value: spec_le_bytes(output_room(pages) as u32) },
        ],
        deploy_body: None,
        call_body: Some(cycle(getter_call(), repeat as nat).push(Instruction::End)),
    }
}

/// A module whose `call` entry point calls one getter of the host's API
/// `repeat` times. The getter writes into the memory from offset 4 on; the
/// first four bytes of the memory tell it how much room there is.
pub fn getter_code(config: &HostConfig, getter_name: &'static str, repeat: u32) -> (module: Result<
    WasmModule,
    CodeError,
>)
    requires
        config.addressable(),
    ensures
        outcome(module) == spec_create_code(
            getter_definition(config.max_memory_pages, getter_name@, repeat),
        ),
{
    let pages = max_pages(config);
    let mut params: Vec<ValueType> = Vec::new();
    params.push(ValueType::I32);
    params.push(ValueType::I32);
    let mut imported_functions: Vec<ImportedFunction> = Vec::new();
    imported_functions.push(ImportedFunction { name: getter_name, params, return_type: None });
    let mut data_segments: Vec<DataSegment> = Vec::new();
    data_segments.push(DataSegment { offset: 0, value: le_bytes(pages * 64 * 1024 - 4) });
    let mut pattern: Vec<Instruction> = Vec::new();
    pattern.push(Instruction::I32Const(4));
    pattern.push(Instruction::I32Const(0));
    pattern.push(Instruction::Call(0));
    proof {
        assert(pattern@ =~= getter_call());
    }
    let definition = ModuleDefinition {
        memory: Some(ImportedMemory::max(config)),
        imported_functions,
        data_segments,
        deploy_body: None,
        call_body: Some(body_repeated(repeat, pattern.as_slice())),
    };
    proof {
        let expected = getter_definition(config.max_memory_pages, getter_name@, repeat);
        assert(definition@.imported_functions[0].params =~= expected.imported_functions[0].params);
        assert(definition@.imported_functions =~= expected.imported_functions);
        assert(definition@.data_segments =~= expected.data_segments);
        assert(definition@ == expected);
    }
    create_code(definition)
}

/// What a hash function of the host's API is called with: the address of
/// the input, its length, the address of the output, then the call.
pub open spec fn hasher_call(data_size: u32) -> Seq<Instruction> {
    seq![
        Instruction::I32Const(0),
        Instruction::I32Const(data_size as i32),
        Instruction::I32Const(0),
        Instruction::Call(0),
    ]
}

/// The definition that [`hasher_code`] encodes.
pub open spec fn hasher_definition(pages: u32, name: Seq<char>, repeat: u32, data_size: u32) -> ModuleDefinitionView {
    ModuleDefinitionView {
        memory: Some(ImportedMemory { min_pages: pages, max_pages: pages }),
        imported_functions: seq![
            ImportedFunctionView {
                name,
                params: seq![ValueType::I32, ValueType::I32, ValueType::I32],
                return_type: None,
            },
        ],
        data_segments: Seq::empty(),
        deploy_body: None,
        call_body: Some(cycle(hasher_call(data_size), repeat as nat).push(Instruction::End)),
    }
}

/// A module whose `call` entry point calls one hash function of the host's
/// API `repeat` times on the first `data_size` bytes of the memory.
pub fn hasher_code(config: &HostConfig, name: &'static str, repeat: u32, data_size: u32) -> (module:
    Result<WasmModule, CodeError>)
    ensures
        outcome(module) == spec_create_code(
            hasher_definition(config.max_memory_pages, name@, repeat, data_size),
        ),
{
    let mut params: Vec<ValueType> = Vec::new();
    params.push(ValueType::I32);
    params.push(ValueType::I32);
    params.push(ValueType::I32);
    let mut imported_functions: Vec<ImportedFunction> = Vec::new();
    imported_functions.push(ImportedFunction { name, params, return_type: None });
    let mut pattern: Vec<Instruction> = Vec::new();
    pattern.push(Instruction::I32Const(0));
    pattern.push(Instruction::I32Const(data_size as i32));
    pattern.push(Instruction::I32Const(0));
    pattern.push(Instruction::Call(0));
    proof {
        assert(pattern@ =~= hasher_call(data_size));
    }
    let definition = ModuleDefinition {
        memory: Some(ImportedMemory::max(config)),
        imported_functions,
        data_segments: Vec::new(),
        deploy_body: None,
        call_body: Some(body_repeated(repeat, pattern.as_slice())),
    };
    proof {
        let expected = hasher_definition(config.max_memory_pages, name@, repeat, data_size);
        assert(definition@.imported_functions[0].params =~= expected.imported_functions[0].params);
        assert(definition@.imported_functions =~= expected.imported_functions);
        assert(definition@.data_segments =~= expected.data_segments);
        assert(definition@ == expected);
    }
    create_code(definition)
}

} // verus!
