//! Translation of a folded instruction sequence into a WebAssembly module.
//!
//! The target is a tape machine: one exported function with a single local,
//! `pointer`, linear memory whose first 16 bytes are reserved for an I/O
//! descriptor record (data pointer at byte 0, length at byte 4, byte-count
//! result at byte 8), and the writable tape starting at byte 12. Two host
//! functions are imported for byte output and byte input; a nonzero status
//! from either traps the program. Each folded instruction maps to a fixed
//! template parameterized only by its own fields, and loops are encoded as a
//! conditional wrapping a loop block, which gives pre-test semantics to a
//! post-test loop primitive.

use vstd::prelude::*;
use wabam::functions::Instruction;
use wabam::functions::MemArg;
use crate::fold::Bf;
use crate::fold::BfError;
use crate::fold::BfInstr;
use crate::fold::balance;
use crate::fold::fold;
use crate::wasm::CustomModel;
use crate::wasm::ExportModel;
use crate::wasm::FuncImportModel;
use crate::wasm::FuncTypeModel;
use crate::wasm::FunctionModel;
use crate::wasm::ModuleModel;
use crate::wasm::build_module;
use crate::wasm::module_model;
use crate::wasm::name_section_bytes;
use crate::wasm::name_section_custom;
use crate::wasm::opt_str_view;
use crate::wasm::wasm_bytes_of;

verus! {

/// The instructions that initialize the descriptor record: the buffer length
/// slot at byte 4 is set to 1, since every I/O call moves a single byte.
pub open spec fn prologue() -> Seq<Instruction> {
    seq![
        Instruction::I32Const(0),
        Instruction::I32Const(1),
        Instruction::I32Store((MemArg { align: 2, offset: 4 })),
    ]
}

/// The instructions of one I/O call: write the current cell's address into
/// the descriptor, call the imported function on the given stream with the
/// descriptor at address 0, one descriptor, and the result slot at byte 8,
/// and trap if the returned status is nonzero.
pub open spec fn io_code(fd: i32, func_idx: u32) -> Seq<Instruction> {
    seq![
        Instruction::I32Const(0),
        Instruction::LocalGet(0),
        Instruction::I32Const(12),
        Instruction::I32Add,
        Instruction::I32Store((MemArg { align: 2, offset: 0 })),
        Instruction::I32Const(fd),
        Instruction::I32Const(0),
        Instruction::I32Const(1),
        Instruction::I32Const(8),
        Instruction::Call(func_idx),
        Instruction::If(None),
        Instruction::Unreachable,
        Instruction::End,
    ]
}

/// The fixed instruction template of one folded instruction.
pub open spec fn instr_code(ins: BfInstr) -> Seq<Instruction> {
    match ins {
        BfInstr::Right(x) => seq![
            Instruction::LocalGet(0),
            Instruction::I32Const(x),
            Instruction::I32Add,
            Instruction::LocalSet(0),
        ],
        BfInstr::Add(x) => seq![
            Instruction::LocalGet(0),
            Instruction::LocalGet(0),
            Instruction::I32LoadS8((MemArg { align: 0, offset: 12 })),
            Instruction::I32Const(x as i32),
            Instruction::I32Add,
            Instruction::I32StoreI8((MemArg { align: 0, offset: 12 })),
        ],
        BfInstr::Output => io_code(1, 0),
        BfInstr::Input => io_code(0, 1),
        BfInstr::StartLoop => seq![
            Instruction::LocalGet(0),
            Instruction::I32LoadS8((MemArg { align: 0, offset: 12 })),
            Instruction::If(None),
            Instruction::Loop(None),
        ],
        BfInstr::EndLoop => seq![
            Instruction::LocalGet(0),
            Instruction::I32LoadS8((MemArg { align: 0, offset: 12 })),
            Instruction::BranchIf(0),
            Instruction::End,
            Instruction::End,
        ],
    }
}

/// The whole function body: the prologue followed by each instruction's
/// template in order.
pub open spec fn body_code(prog: Seq<BfInstr>) -> Seq<Instruction>
    decreases prog.len(),
{
    if prog.len() == 0 {
        prologue()
    } else {
        body_code(prog.drop_last()) + instr_code(prog.last())
    }
}

/// Emit the instruction stream of the exported function.
fn emit_body(prog: &Vec<BfInstr>) -> (r: Vec<Instruction>)
    ensures
        r@ == body_code(prog@),
{
    let mut body: Vec<Instruction> = Vec::new();
    body.push(Instruction::I32Const(0));
    body.push(Instruction::I32Const(1));
    body.push(Instruction::I32Store(MemArg { align: 2, offset: 4 }));
    proof {
        assert(prog@.take(0) =~= Seq::<BfInstr>::empty());
        assert(body@ =~= prologue());
    }
    let mut i: usize = 0;
    while i < prog.len()
        invariant
            i <= prog@.len(),
            body@ == body_code(prog@.take(i as int)),
        decreases prog@.len() - i,
    {
        let ins = prog[i];
        proof {
            assert(prog@.take(i as int + 1).drop_last() =~= prog@.take(i as int));
            assert(prog@.take(i as int + 1).last() == prog@[i as int]);
        }
        let ghost prev = body@;
        match ins {
            BfInstr::Right(x) => {
                body.push(Instruction::LocalGet(0));
                body.push(Instruction::I32Const(x));
                body.push(Instruction::I32Add);
                body.push(Instruction::LocalSet(0));
            },
            BfInstr::Add(x) => {
                body.push(Instruction::LocalGet(0));
                body.push(Instruction::LocalGet(0));
                body.push(Instruction::I32LoadS8(MemArg { align: 0, offset: 12 }));
                body.push(Instruction::I32Const(x as i32));
                body.push(Instruction::I32Add);
                body.push(Instruction::I32StoreI8(MemArg { align: 0, offset: 12 }));
            },
            BfInstr::Output => {
                push_io(&mut body, 1, 0);
            },
            BfInstr::Input => {
                push_io(&mut body, 0, 1);
            },
            BfInstr::StartLoop => {
                body.push(Instruction::LocalGet(0));
                body.push(Instruction::I32LoadS8(MemArg { align: 0, offset: 12 }));
                body.push(Instruction::If(None));
                body.push(Instruction::Loop(None));
            },
            BfInstr::EndLoop => {
                body.push(Instruction::LocalGet(0));
                body.push(Instruction::I32LoadS8(MemArg { align: 0, offset: 12 }));
                body.push(Instruction::BranchIf(0));
                body.push(Instruction::End);
                body.push(Instruction::End);
            },
        }
        proof {
            assert(body@ =~= prev + instr_code(ins));
        }
        i = i + 1;
    }
    proof {
        assert(prog@.take(prog@.len() as int) =~= prog@);
    }
    body
}

/// Append one I/O call's instructions to the body.
fn push_io(body: &mut Vec<Instruction>, fd: i32, func_idx: u32)
    ensures
        final(body)@ == old(body)@ + io_code(fd, func_idx),
{
    body.push(Instruction::I32Const(0));
    body.push(Instruction::LocalGet(0));
    body.push(Instruction::I32Const(12));
    body.push(Instruction::I32Add);
    body.push(Instruction::I32Store(MemArg { align: 2, offset: 0 }));
    body.push(Instruction::I32Const(fd));
    body.push(Instruction::I32Const(0));
    body.push(Instruction::I32Const(1));
    body.push(Instruction::I32Const(8));
    body.push(Instruction::Call(func_idx));
    body.push(Instruction::If(None));
    body.push(Instruction::Unreachable);
    body.push(Instruction::End);
    proof {
        assert(body@ =~= old(body)@ + io_code(fd, func_idx));
    }
}

/// The value type of a 32-bit integer in the target's type vocabulary.
pub open spec fn val_i32() -> wabam::ValType {
    wabam::ValType::Num(wabam::NumType::I32)
}

/// The signature shared by both imported I/O functions: four 32-bit integer
/// parameters and one 32-bit integer result.
pub open spec fn io_func_type() -> FuncTypeModel {
    FuncTypeModel {
        inputs: seq![val_i32(), val_i32(), val_i32(), val_i32()],
        outputs: seq![val_i32()],
    }
}

/// The debug-name section of a compiled module: the optional module name,
/// the three function names, and the entry function's `pointer` local.
pub open spec fn name_section_model(name: Option<Seq<char>>) -> CustomModel {
    CustomModel {
        name: "name"@,
        data: name_section_bytes(
            name,
            seq![(0u32, "fd_write"@), (1u32, "fd_read"@), (2u32, "_start"@)],
            seq![(2u32, seq![(0u32, "pointer"@)])],
        ),
    }
}

/// The custom sections of a compiled module: the debug names first, then the
/// caller's auxiliary section if one was given.
pub open spec fn customs_model(name: Option<Seq<char>>, custom: Option<(Seq<char>, Seq<u8>)>) -> Seq<CustomModel> {
    seq![name_section_model(name)] + (match custom {
        Some(c) => seq![(CustomModel { name: c.0, data: c.1 })],
        None => Seq::empty(),
    })
}

/// The whole module produced for a folded program: fixed types, imports,
/// exports and memory, and the program's instruction stream as the single
/// defined function's body.
pub open spec fn compiled_model(
    prog: Seq<BfInstr>,
    name: Option<Seq<char>>,
    pages: u32,
    custom: Option<(Seq<char>, Seq<u8>)>,
) -> ModuleModel {
    ModuleModel {
        custom_sections: customs_model(name, custom),
        types: seq![
            (FuncTypeModel { inputs: Seq::empty(), outputs: Seq::empty() }),
            io_func_type(),
        ],
        func_imports: seq![
            (FuncImportModel { module: "wasi_snapshot_preview1"@, name: "fd_write"@, type_idx: 1 }),
            (FuncImportModel { module: "wasi_snapshot_preview1"@, name: "fd_read"@, type_idx: 1 }),
        ],
        table_imports: Seq::empty(),
        memory_imports: Seq::empty(),
        global_imports: Seq::empty(),
        functions: seq![
            (FunctionModel { type_idx: 0, locals: seq![val_i32()], body: body_code(prog) }),
        ],
        tables: Seq::empty(),
        memories: seq![(wabam::Limit { start: pages, end: None })],
        globals: Seq::empty(),
        func_exports: seq![(ExportModel { name: "_start"@, idx: 2 })],
        table_exports: Seq::empty(),
        memory_exports: seq![(ExportModel { name: "memory"@, idx: 0 })],
        global_exports: Seq::empty(),
        start: None,
        elems: Seq::empty(),
        datas: Seq::empty(),
    }
}

pub open spec fn opt_strref_view(o: Option<&str>) -> Option<Seq<char>> {
    match o {
        Some(s) => Some(s@),
        None => None,
    }
}

pub open spec fn opt_custom_view(c: Option<(String, Vec<u8>)>) -> Option<(Seq<char>, Seq<u8>)> {
    match c {
        Some(p) => Some((p.0@, p.1@)),
        None => None,
    }
}

/// The bytes of a compilation: the binary encoding of the module built from
/// the folded source.
pub open spec fn compiled_bytes(
    src: Seq<char>,
    name: Option<Seq<char>>,
    pages: u32,
    custom: Option<(Seq<char>, Seq<u8>)>,
) -> Seq<u8> {
    wasm_bytes_of(compiled_model(fold(src), name, pages, custom))
}

/// Compilation is deterministic: two runs over the same source with the same
/// name, page count and auxiliary section produce byte-identical modules.
/// The compiled bytes are a function of those inputs alone; nothing else
/// (time, randomness, addresses) enters the module description.
pub proof fn lemma_compile_deterministic(
    src: Seq<char>,
    name: Option<Seq<char>>,
    pages: u32,
    custom: Option<(Seq<char>, Seq<u8>)>,
    b1: Seq<u8>,
    b2: Seq<u8>,
)
    requires
        b1 == compiled_bytes(src, name, pages, custom),
        b2 == compiled_bytes(src, name, pages, custom),
    ensures
        b1 == b2,
{
}

/// Compile source text into a complete WebAssembly module: fold the source,
/// translate every folded instruction into its template, and serialize the
/// module around that body. Fails exactly when the source's brackets do not
/// balance, before any emission work.
pub fn bf_to_wasm(
    bf: &str,
    name: Option<&str>,
    pages: u32,
    custom_section: Option<(String, Vec<u8>)>,
) -> (r: Result<Vec<u8>, BfError>)
    ensures
        match r {
            Ok(bytes) => balance(bf@) == 0 && bytes@ == compiled_bytes(
                bf@,
                opt_strref_view(name),
                pages,
                opt_custom_view(custom_section),
            ),
            Err(e) => e == BfError::BracketMismatch && balance(bf@) != 0,
        },
{
    let ghost name_view = opt_strref_view(name);
    let ghost custom_view = opt_custom_view(custom_section);
    let prog: Bf = match Bf::parse(bf) {
        Ok(p) => p,
        Err(e) => {
            return Err(e);
        },
    };
    let body = emit_body(&prog.0);

    let owned_name: Option<String> = match name {
        Some(s) => Some(s.to_owned()),
        None => None,
    };
    let mut function_names: Vec<(u32, String)> = Vec::new();
    function_names.push((0, "fd_write".to_owned()));
    function_names.push((1, "fd_read".to_owned()));
    function_names.push((2, "_start".to_owned()));
    let mut pointer_names: Vec<(u32, String)> = Vec::new();
    pointer_names.push((0, "pointer".to_owned()));
    let mut local_names: Vec<(u32, Vec<(u32, String)>)> = Vec::new();
    local_names.push((2, pointer_names));
    proof {
        assert(function_names@.map_values(|p: (u32, String)| (p.0, p.1@))
            =~= seq![(0u32, "fd_write"@), (1u32, "fd_read"@), (2u32, "_start"@)]);
        assert(local_names@.map_values(
            |p: (u32, Vec<(u32, String)>)| (p.0, p.1@.map_values(|q: (u32, String)| (q.0, q.1@))),
        ) =~~= seq![(2u32, seq![(0u32, "pointer"@)])]);
        assert(opt_str_view(owned_name) == name_view);
    }
    let names = name_section_custom(owned_name, function_names, local_names);

    let mut custom_sections: Vec<wabam::customs::CustomSection> = Vec::new();
    custom_sections.push(names);
    match custom_section {
        Some(p) => {
            custom_sections.push(wabam::customs::CustomSection { name: p.0, data: p.1 });
        },
        None => {},
    }

    let mut types: Vec<wabam::functions::FuncType> = Vec::new();
    types.push(wabam::functions::FuncType { inputs: Vec::new(), outputs: Vec::new() });
    let mut io_inputs: Vec<wabam::ValType> = Vec::new();
    io_inputs.push(wabam::ValType::Num(wabam::NumType::I32));
    io_inputs.push(wabam::ValType::Num(wabam::NumType::I32));
    io_inputs.push(wabam::ValType::Num(wabam::NumType::I32));
    io_inputs.push(wabam::ValType::Num(wabam::NumType::I32));
    let mut io_outputs: Vec<wabam::ValType> = Vec::new();
    io_outputs.push(wabam::ValType::Num(wabam::NumType::I32));
    types.push(wabam::functions::FuncType { inputs: io_inputs, outputs: io_outputs });

    let mut func_imports: Vec<wabam::interface::FuncImport> = Vec::new();
    func_imports.push(wabam::interface::FuncImport {
        module: "wasi_snapshot_preview1".to_owned(),
        name: "fd_write".to_owned(),
        type_idx: 1,
    });
    func_imports.push(wabam::interface::FuncImport {
        module: "wasi_snapshot_preview1".to_owned(),
        name: "fd_read".to_owned(),
        type_idx: 1,
    });
    let imports = wabam::interface::Imports {
        functions: func_imports,
        tables: Vec::new(),
        memories: Vec::new(),
        globals: Vec::new(),
    };

    let mut memories: Vec<wabam::Limit> = Vec::new();
    memories.push(wabam::Limit { start: pages, end: None });

    let mut locals: Vec<wabam::ValType> = Vec::new();
    locals.push(wabam::ValType::Num(wabam::NumType::I32));
    let mut functions: Vec<wabam::functions::Function> = Vec::new();
    functions.push(wabam::functions::Function {
        type_idx: 0,
        locals,
        body: wabam::functions::Expr { instructions: body },
    });

    let mut func_exports: Vec<wabam::interface::Export> = Vec::new();
    func_exports.push(wabam::interface::Export { name: "_start".to_owned(), idx: 2 });
    let mut memory_exports: Vec<wabam::interface::Export> = Vec::new();
    memory_exports.push(wabam::interface::Export { name: "memory".to_owned(), idx: 0 });
    let exports = wabam::interface::Exports {
        functions: func_exports,
        tables: Vec::new(),
        memories: memory_exports,
        globals: Vec::new(),
    };

    let module = wabam::Module {
        custom_sections,
        types,
        imports,
        functions,
        tables: Vec::new(),
        memories,
        globals: Vec::new(),
        exports,
        start: None,
        elems: Vec::new(),
        datas: Vec::new(),
    };
    proof {
        let m = module_model(module);
        let c = compiled_model(fold(bf@), name_view, pages, custom_view);
        assert(m.custom_sections =~~= c.custom_sections);
        assert(m.types =~~= c.types);
        assert(m.func_imports =~~= c.func_imports);
        assert(m.table_imports =~= c.table_imports);
        assert(m.memory_imports =~= c.memory_imports);
        assert(m.global_imports =~= c.global_imports);
        assert(m.functions =~~= c.functions);
        assert(m.tables =~= c.tables);
        assert(m.memories =~= c.memories);
        assert(m.globals =~= c.globals);
        assert(m.func_exports =~~= c.func_exports);
        assert(m.table_exports =~~= c.table_exports);
        assert(m.memory_exports =~~= c.memory_exports);
        assert(m.global_exports =~~= c.global_exports);
        assert(m.elems =~= c.elems);
        assert(m.datas =~= c.datas);
        assert(m =~= c);
    }
    Ok(build_module(&module))
}

} // verus!
