//! Declarations of the module-assembly library's types, a view-level model of
//! a module, and the two trusted calls into that library.
//!
//! The assembly library's data types are plain structs and enums; declaring
//! them lets verified code build a module description directly and reason
//! about every field. Only the final byte-level serialization, and the
//! encoding of the debug-name section, are taken on trust: each is a pure
//! function of its argument's contents, so its result is given a name and the
//! contracts speak of that name.

use vstd::prelude::*;

verus! {

#[verifier::external_type_specification]
pub struct ExMemArg(wabam::functions::MemArg);

#[verifier::external_type_specification]
pub struct ExNumType(wabam::NumType);

#[verifier::external_type_specification]
pub struct ExVecType(wabam::VecType);

#[verifier::external_type_specification]
pub struct ExRefType(wabam::RefType);

#[verifier::external_type_specification]
pub struct ExValType(wabam::ValType);

#[verifier::external_type_specification]
pub struct ExInstruction(wabam::functions::Instruction);

#[verifier::external_type_specification]
pub struct ExExpr(wabam::functions::Expr);

#[verifier::external_type_specification]
pub struct ExFuncType(wabam::functions::FuncType);

#[verifier::external_type_specification]
pub struct ExFunction(wabam::functions::Function);

#[verifier::external_type_specification]
pub struct ExLimit(wabam::Limit);

#[verifier::external_type_specification]
pub struct ExGlobalType(wabam::GlobalType);

#[verifier::external_type_specification]
pub struct ExGlobal(wabam::Global);

#[verifier::external_type_specification]
pub struct ExData(wabam::Data);

#[verifier::external_type_specification]
pub struct ExTableType(wabam::tables::TableType);

#[verifier::external_type_specification]
pub struct ExElemKind(wabam::tables::ElemKind);

#[verifier::external_type_specification]
pub struct ExElemInit(wabam::tables::ElemInit);

#[verifier::external_type_specification]
pub struct ExElemMode(wabam::tables::ElemMode);

#[verifier::external_type_specification]
pub struct ExElement(wabam::tables::Element);

#[verifier::external_type_specification]
pub struct ExCustomSection(wabam::customs::CustomSection);

#[verifier::external_type_specification]
pub struct ExFuncImport(wabam::interface::FuncImport);

#[verifier::external_type_specification]
pub struct ExTableImport(wabam::interface::TableImport);

#[verifier::external_type_specification]
pub struct ExMemoryImport(wabam::interface::MemoryImport);

#[verifier::external_type_specification]
pub struct ExGlobalImport(wabam::interface::GlobalImport);

#[verifier::external_type_specification]
pub struct ExImports(wabam::interface::Imports);

#[verifier::external_type_specification]
pub struct ExExport(wabam::interface::Export);

#[verifier::external_type_specification]
pub struct ExExports(wabam::interface::Exports);

#[verifier::external_type_specification]
pub struct ExModule(wabam::Module);

/// The contents of a custom section: its name and its raw bytes.
#[verifier::ext_equal]
pub struct CustomModel {
    pub name: Seq<char>,
    pub data: Seq<u8>,
}

/// The contents of a function type: parameter and result value types.
#[verifier::ext_equal]
pub struct FuncTypeModel {
    pub inputs: Seq<wabam::ValType>,
    pub outputs: Seq<wabam::ValType>,
}

/// The contents of a function import.
#[verifier::ext_equal]
pub struct FuncImportModel {
    pub module: Seq<char>,
    pub name: Seq<char>,
    pub type_idx: u32,
}

/// The contents of one export entry.
#[verifier::ext_equal]
pub struct ExportModel {
    pub name: Seq<char>,
    pub idx: u32,
}

/// The contents of a defined function: its type, locals and instruction body.
#[verifier::ext_equal]
pub struct FunctionModel {
    pub type_idx: u32,
    pub locals: Seq<wabam::ValType>,
    pub body: Seq<wabam::functions::Instruction>,
}

/// Everything the serializer reads of a module, as mathematical values.
#[verifier::ext_equal]
pub struct ModuleModel {
    pub custom_sections: Seq<CustomModel>,
    pub types: Seq<FuncTypeModel>,
    pub func_imports: Seq<FuncImportModel>,
    pub table_imports: Seq<wabam::interface::TableImport>,
    pub memory_imports: Seq<wabam::interface::MemoryImport>,
    pub global_imports: Seq<wabam::interface::GlobalImport>,
    pub functions: Seq<FunctionModel>,
    pub tables: Seq<wabam::tables::TableType>,
    pub memories: Seq<wabam::Limit>,
    pub globals: Seq<wabam::Global>,
    pub func_exports: Seq<ExportModel>,
    pub table_exports: Seq<ExportModel>,
    pub memory_exports: Seq<ExportModel>,
    pub global_exports: Seq<ExportModel>,
    pub start: Option<u32>,
    pub elems: Seq<wabam::tables::Element>,
    pub datas: Seq<wabam::Data>,
}

pub open spec fn custom_model(c: wabam::customs::CustomSection) -> CustomModel {
    CustomModel { name: c.name@, data: c.data@ }
}

pub open spec fn func_type_model(t: wabam::functions::FuncType) -> FuncTypeModel {
    FuncTypeModel { inputs: t.inputs@, outputs: t.outputs@ }
}

pub open spec fn func_import_model(i: wabam::interface::FuncImport) -> FuncImportModel {
    FuncImportModel { module: i.module@, name: i.name@, type_idx: i.type_idx }
}

pub open spec fn export_model(e: wabam::interface::Export) -> ExportModel {
    ExportModel { name: e.name@, idx: e.idx }
}

pub open spec fn function_model(f: wabam::functions::Function) -> FunctionModel {
    FunctionModel { type_idx: f.type_idx, locals: f.locals@, body: f.body.instructions@ }
}

/// The view of a whole module value: what the serializer's output depends on.
pub open spec fn module_model(m: wabam::Module) -> ModuleModel {
    ModuleModel {
        custom_sections: m.custom_sections@.map_values(|c: wabam::customs::CustomSection| custom_model(c)),
        types: m.types@.map_values(|t: wabam::functions::FuncType| func_type_model(t)),
        func_imports: m.imports.functions@.map_values(|i: wabam::interface::FuncImport| func_import_model(i)),
        table_imports: m.imports.tables@,
        memory_imports: m.imports.memories@,
        global_imports: m.imports.globals@,
        functions: m.functions@.map_values(|f: wabam::functions::Function| function_model(f)),
        tables: m.tables@,
        memories: m.memories@,
        globals: m.globals@,
        func_exports: m.exports.functions@.map_values(|e: wabam::interface::Export| export_model(e)),
        table_exports: m.exports.tables@.map_values(|e: wabam::interface::Export| export_model(e)),
        memory_exports: m.exports.memories@.map_values(|e: wabam::interface::Export| export_model(e)),
        global_exports: m.exports.globals@.map_values(|e: wabam::interface::Export| export_model(e)),
        start: m.start,
        elems: m.elems@,
        datas: m.datas@,
    }
}

/// The bytes of the binary encoding of a module with the given contents.
pub uninterp spec fn wasm_bytes_of(m: ModuleModel) -> Seq<u8>;

/// The bytes of the debug-name subsection encoding of the given names.
pub uninterp spec fn name_section_bytes(
    module_name: Option<Seq<char>>,
    function_names: Seq<(u32, Seq<char>)>,
    local_names: Seq<(u32, Seq<(u32, Seq<char>)>)>,
) -> Seq<u8>;

pub open spec fn opt_str_view(o: Option<String>) -> Option<Seq<char>> {
    match o {
        Some(s) => Some(s@),
        None => None,
    }
}

/// Relies on wabam::Module::build: it serializes the module into the wasm
/// binary format, reading nothing but the module's contents, and returns the
/// buffer.
#[verifier::external_body]
pub fn build_module(m: &wabam::Module) -> (r: Vec<u8>)
    ensures
        r@ == wasm_bytes_of(module_model(*m)),
{
    m.build()
}

/// Relies on wabam::customs::NameSection::to_custom: it encodes the given
/// names into the bytes of a custom section called "name", reading nothing
/// but those names.
#[verifier::external_body]
pub fn name_section_custom(
    module_name: Option<String>,
    function_names: Vec<(u32, String)>,
    local_names: Vec<(u32, Vec<(u32, String)>)>,
) -> (r: wabam::customs::CustomSection)
    ensures
        r.name@ == "name"@,
        r.data@ == name_section_bytes(
            opt_str_view(module_name),
            function_names@.map_values(|p: (u32, String)| (p.0, p.1@)),
            local_names@.map_values(
                |p: (u32, Vec<(u32, String)>)| (p.0, p.1@.map_values(|q: (u32, String)| (q.0, q.1@))),
            ),
        ),
{
    wabam::customs::NameSection { module_name, function_names, local_names }.to_custom()
}

} // verus!
