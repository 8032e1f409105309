//! The declarative description of a module and the layout it stands for.
//!
//! A [`ModuleDefinition`] names what a generated module imports, what its
//! memory initially holds and what its two entry points execute. Its
//! [`layout`] is the module section by section: the signatures, the imports,
//! the two internal functions, their exports, their bodies and the data
//! segments.

use vstd::prelude::*;
use vstd::utf8::encode_utf8;
use crate::config::HostConfig;
use crate::instructions::Body;
use crate::instructions::Instruction;
use crate::instructions::ValueType;

verus! {

/// A host function that the module imports.
#[derive(Debug)]
pub struct ImportedFunction {
    /// The name of the function in the host's API namespace.
    pub name: &'static str,
    /// The types of its parameters, in order.
    pub params: Vec<ValueType>,
    /// The type of its result, if it has one.
    pub return_type: Option<ValueType>,
}

/// An imported function as contracts see it.
pub struct ImportedFunctionView {
    pub name: Seq<char>,
    pub params: Seq<ValueType>,
    pub return_type: Option<ValueType>,
}

impl View for ImportedFunction {
    type V = ImportedFunctionView;

    open spec fn view(&self) -> ImportedFunctionView {
        ImportedFunctionView {
            name: self.name@,
            params: self.params@,
            return_type: self.return_type,
        }
    }
}

/// The linear memory that the module imports, in pages of 64 KiB.
#[derive(Clone, Copy, Debug, PartialEq, Eq, Structural)]
pub struct ImportedMemory {
    /// The number of pages the memory starts with.
    pub min_pages: u32,
    /// The number of pages the memory may grow to.
    pub max_pages: u32,
}

impl ImportedMemory {
    /// The bounds are ordered and within what the host allows.
    pub open spec fn valid(self, config: HostConfig) -> bool {
        self.min_pages <= self.max_pages <= config.max_memory_pages
    }

    /// The largest memory the host allows, present from the start.
    pub fn max(config: &HostConfig) -> (memory: ImportedMemory)
        ensures
            memory.min_pages == config.max_memory_pages,
            memory.max_pages == config.max_memory_pages,
            memory.valid(*config),
    {
        let pages = crate::config::max_pages(config);
        ImportedMemory { min_pages: pages, max_pages: pages }
    }
}

/// Bytes that the memory holds at a given offset when the module starts.
#[derive(Debug)]
pub struct DataSegment {
    /// The offset of the first byte.
    pub offset: u32,
    /// The bytes.
    pub value: Vec<u8>,
}

/// A data segment as contracts see it.
pub struct DataSegmentView {
    pub offset: u32,
    pub value: Seq<u8>,
}

impl View for DataSegment {
    type V = DataSegmentView;

    open spec fn view(&self) -> DataSegmentView {
        DataSegmentView { offset: self.offset, value: self.value@ }
    }
}

/// The description a module is generated from.
#[derive(Debug)]
pub struct ModuleDefinition {
    /// The initial contents of the memory.
    pub data_segments: Vec<DataSegment>,
    /// The imported memory, if the module uses one.
    pub memory: Option<ImportedMemory>,
    /// The imported host functions. The function at position `k` gets the
    /// function index `k`.
    pub imported_functions: Vec<ImportedFunction>,
    /// The body of the `deploy` entry point; the empty body if absent.
    pub deploy_body: Option<Body>,
    /// The body of the `call` entry point; the empty body if absent.
    pub call_body: Option<Body>,
}

/// A module definition as contracts see it.
pub struct ModuleDefinitionView {
    pub data_segments: Seq<DataSegmentView>,
    pub memory: Option<ImportedMemory>,
    pub imported_functions: Seq<ImportedFunctionView>,
    pub deploy_body: Option<Seq<Instruction>>,
    pub call_body: Option<Seq<Instruction>>,
}

/// The view of an optional body.
pub open spec fn body_view(body: Option<Body>) -> Option<Seq<Instruction>> {
    match body {
        Some(body) => Some(body@),
        None => None,
    }
}

impl View for ModuleDefinition {
    type V = ModuleDefinitionView;

    open spec fn view(&self) -> ModuleDefinitionView {
        ModuleDefinitionView {
            data_segments: Seq::new(self.data_segments@.len(), |i: int| self.data_segments@[i]@),
            memory: self.memory,
            imported_functions: Seq::new(
                self.imported_functions@.len(),
                |i: int| self.imported_functions@[i]@,
            ),
            deploy_body: body_view(self.deploy_body),
            call_body: body_view(self.call_body),
        }
    }
}

impl ModuleDefinitionView {
    /// The definition that imports nothing, holds no data and leaves both
    /// entry points empty.
    pub open spec fn empty() -> ModuleDefinitionView {
        ModuleDefinitionView {
            data_segments: Seq::empty(),
            memory: None,
            imported_functions: Seq::empty(),
            deploy_body: None,
            call_body: None,
        }
    }
}

impl Default for ModuleDefinition {
    fn default() -> (definition: ModuleDefinition)
        ensures
            definition@ == ModuleDefinitionView::empty(),
    {
        let definition = ModuleDefinition {
            data_segments: Vec::new(),
            memory: None,
            imported_functions: Vec::new(),
            deploy_body: None,
            call_body: None,
        };
        proof {
            assert(definition@.data_segments =~= Seq::empty());
            assert(definition@.imported_functions =~= Seq::empty());
        }
        definition
    }
}

/// The signature of a function.
pub struct FunctionType {
    pub params: Seq<ValueType>,
    pub return_type: Option<ValueType>,
}

/// What an import binds to.
pub enum External {
    /// A function with the signature at this index of the module's signatures.
    Function(u32),
    /// A linear memory with this initial and this maximal number of pages.
    Memory(u32, Option<u32>),
}

/// One import of a module.
pub struct ImportEntry {
    pub module: Seq<char>,
    pub field: Seq<char>,
    pub external: External,
}

/// One exported function of a module.
pub struct ExportEntry {
    pub field: Seq<char>,
    /// The index of the exported function, imports counted first.
    pub function: u32,
}

/// One active data segment of the module's memory.
pub struct Segment {
    /// The operand of the 32-bit constant that gives the segment's offset.
    pub offset: i32,
    pub value: Seq<u8>,
}

/// A module section by section. Sections that hold nothing are absent from
/// the encoded module.
pub struct ModuleLayout {
    /// The distinct signatures, each at its index.
    pub types: Seq<FunctionType>,
    pub imports: Seq<ImportEntry>,
    /// For each internal function the index of its signature.
    pub functions: Seq<u32>,
    pub exports: Seq<ExportEntry>,
    /// For each internal function its body.
    pub code: Seq<Seq<Instruction>>,
    pub data: Seq<Segment>,
}

/// The index of the first occurrence of `signature` in `types`, or the
/// length of `types` if it does not occur.
pub open spec fn position(types: Seq<FunctionType>, signature: FunctionType) -> nat
    decreases types.len(),
{
    if types.len() == 0 {
        0
    } else if types[0] == signature {
        0
    } else {
        1 + position(types.drop_first(), signature)
    }
}

/// `types` with `signature` among them: appended if it did not occur.
pub open spec fn with_type(types: Seq<FunctionType>, signature: FunctionType) -> Seq<FunctionType> {
    if position(types, signature) < types.len() {
        types
    } else {
        types.push(signature)
    }
}

impl ModuleLayout {
    /// The module without any section.
    pub open spec fn empty() -> ModuleLayout {
        ModuleLayout {
            types: Seq::empty(),
            imports: Seq::empty(),
            functions: Seq::empty(),
            exports: Seq::empty(),
            code: Seq::empty(),
            data: Seq::empty(),
        }
    }

    /// One more internal function of the given signature and body.
    pub open spec fn with_function(self, signature: FunctionType, body: Seq<Instruction>) -> ModuleLayout {
        ModuleLayout {
            types: with_type(self.types, signature),
            functions: self.functions.push(position(self.types, signature) as u32),
            code: self.code.push(body),
            ..self
        }
    }

    /// One more signature, unless it is there already.
    pub open spec fn with_signature(self, signature: FunctionType) -> ModuleLayout {
        ModuleLayout { types: with_type(self.types, signature), ..self }
    }

    /// One more import.
    pub open spec fn with_import(self, entry: ImportEntry) -> ModuleLayout {
        ModuleLayout { imports: self.imports.push(entry), ..self }
    }

    /// One more export.
    pub open spec fn with_export(self, entry: ExportEntry) -> ModuleLayout {
        ModuleLayout { exports: self.exports.push(entry), ..self }
    }

    /// One more data segment.
    pub open spec fn with_data(self, segment: Segment) -> ModuleLayout {
        ModuleLayout { data: self.data.push(segment), ..self }
    }
}

/// The signature without parameters and result, which both entry points have.
pub open spec fn entry_signature() -> FunctionType {
    FunctionType { params: Seq::empty(), return_type: None }
}

/// The signature of an imported function.
pub open spec fn signature_of(function: ImportedFunctionView) -> FunctionType {
    FunctionType { params: function.params, return_type: function.return_type }
}

/// The signatures of a module after the first `count` imports were
/// registered: the entry points' signature first, then each new signature
/// in the order in which the imports bring it.
pub open spec fn signature_table(functions: Seq<ImportedFunctionView>, count: nat) -> Seq<
    FunctionType,
>
    decreases count,
{
    if count == 0 {
        seq![entry_signature()]
    } else {
        with_type(
            signature_table(functions, (count - 1) as nat),
            signature_of(functions[count - 1]),
        )
    }
}

/// The namespace that host functions are imported from.
pub open spec fn host_namespace() -> Seq<char> {
    "seal0"@
}

/// The import of the host function at position `k`.
pub open spec fn function_import(functions: Seq<ImportedFunctionView>, k: int) -> ImportEntry {
    ImportEntry {
        module: host_namespace(),
        field: functions[k].name,
        external: External::Function(
            position(signature_table(functions, k as nat), signature_of(functions[k])) as u32,
        ),
    }
}

/// The import of the linear memory.
pub open spec fn memory_import(memory: ImportedMemory) -> ImportEntry {
    ImportEntry {
        module: "env"@,
        field: "memory"@,
        external: External::Memory(memory.min_pages, Some(memory.max_pages)),
    }
}

/// The imports that come before the host functions: the memory, if any.
pub open spec fn memory_imports(memory: Option<ImportedMemory>) -> Seq<ImportEntry> {
    match memory {
        Some(memory) => seq![memory_import(memory)],
        None => Seq::empty(),
    }
}

/// The body of an entry point: the given one, or the empty body.
pub open spec fn body_or_empty(body: Option<Seq<Instruction>>) -> Seq<Instruction> {
    match body {
        Some(body) => body,
        None => Body::spec_empty(),
    }
}

/// The data segment of the layout that a segment of the definition becomes.
pub open spec fn segment_of(data: DataSegmentView) -> Segment {
    Segment { offset: data.offset as i32, value: data.value }
}

/// The layout of the module that a definition describes.
///
/// Its only exports are `deploy` and `call`. They are bound to the two
/// internal functions, whose indices follow those of the imported functions,
/// so that the imported function at position `k` has the function index `k`.
pub open spec fn layout(definition: ModuleDefinitionView) -> ModuleLayout {
    let imported = definition.imported_functions;
    ModuleLayout {
        types: signature_table(imported, imported.len()),
        imports: memory_imports(definition.memory) + Seq::new(
            imported.len(),
            |k: int| function_import(imported, k),
        ),
        functions: seq![0u32, 0u32],
        exports: seq![
            ExportEntry { field: "deploy"@, function: imported.len() as u32 },
            ExportEntry { field: "call"@, function: (imported.len() + 1) as u32 },
        ],
        code: seq![
            body_or_empty(definition.deploy_body),
            body_or_empty(definition.call_body),
        ],
        data: Seq::new(
            definition.data_segments.len(),
            |i: int| segment_of(definition.data_segments[i]),
        ),
    }
}

/// The sum of the given numbers.
pub open spec fn total(weights: Seq<nat>) -> nat
    decreases weights.len(),
{
    if weights.len() == 0 {
        0
    } else {
        total(weights.drop_last()) + weights.last()
    }
}

/// An upper bound on the number of bytes that a signature takes when encoded.
pub open spec fn type_weight(signature: FunctionType) -> nat {
    16 + signature.params.len()
}

/// An upper bound on the number of bytes that an import takes when encoded.
pub open spec fn import_weight(entry: ImportEntry) -> nat {
    32 + encode_utf8(entry.module).len() + encode_utf8(entry.field).len()
}

/// An upper bound on the number of bytes that an export takes when encoded.
pub open spec fn export_weight(entry: ExportEntry) -> nat {
    16 + encode_utf8(entry.field).len()
}

/// An upper bound on the number of bytes that a body takes when encoded.
pub open spec fn body_weight(body: Seq<Instruction>) -> nat {
    16 + 16 * body.len()
}

/// An upper bound on the number of bytes that a data segment takes when encoded.
pub open spec fn segment_weight(segment: Segment) -> nat {
    32 + segment.value.len()
}

impl ModuleLayout {
    /// An upper bound on the number of bytes that the module takes when
    /// encoded: every count and every length that the encoding writes is
    /// below it.
    pub open spec fn weight(self) -> nat {
        128 + total(Seq::new(self.types.len(), |i: int| type_weight(self.types[i]))) + total(
            Seq::new(self.imports.len(), |i: int| import_weight(self.imports[i])),
        ) + 8 * self.functions.len() + total(
            Seq::new(self.exports.len(), |i: int| export_weight(self.exports[i])),
        ) + total(Seq::new(self.code.len(), |i: int| body_weight(self.code[i]))) + total(
            Seq::new(self.data.len(), |i: int| segment_weight(self.data[i])),
        )
    }
}

} // verus!
