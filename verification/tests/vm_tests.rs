//! End-to-end checks: compiled modules are executed on a small interpreter of
//! the instruction vocabulary the emitter uses, with the two imported calls
//! simulated over in-memory input and output buffers.

use wabam::functions::Instruction;

struct Vm {
    memory: Vec<u8>,
    local: i32,
    stack: Vec<i32>,
    input: Vec<u8>,
    in_pos: usize,
    output: Vec<u8>,
}

enum Ctl {
    IfBlock,
    LoopBlock(usize),
}

/// Skip to just after the `End` matching the block opened right before `pc`.
fn skip_block(instrs: &[Instruction], mut pc: usize) -> usize {
    let mut depth = 1usize;
    while depth > 0 {
        match &instrs[pc] {
            Instruction::If(_) | Instruction::Loop(_) | Instruction::Block(_) => depth += 1,
            Instruction::End => depth -= 1,
            _ => {}
        }
        pc += 1;
    }
    pc
}

fn run(instrs: &[Instruction], vm: &mut Vm) -> Result<(), &'static str> {
    let mut pc = 0usize;
    let mut ctl: Vec<Ctl> = Vec::new();
    while pc < instrs.len() {
        match &instrs[pc] {
            Instruction::I32Const(x) => vm.stack.push(*x),
            Instruction::I32Add => {
                let b = vm.stack.pop().unwrap();
                let a = vm.stack.pop().unwrap();
                vm.stack.push(a.wrapping_add(b));
            }
            Instruction::LocalGet(0) => vm.stack.push(vm.local),
            Instruction::LocalSet(0) => vm.local = vm.stack.pop().unwrap(),
            Instruction::I32Store(m) => {
                let v = vm.stack.pop().unwrap();
                let a = (vm.stack.pop().unwrap() as u32 + m.offset) as usize;
                vm.memory[a..a + 4].copy_from_slice(&v.to_le_bytes());
            }
            Instruction::I32StoreI8(m) => {
                let v = vm.stack.pop().unwrap();
                let a = (vm.stack.pop().unwrap() as u32 + m.offset) as usize;
                vm.memory[a] = v as u8;
            }
            Instruction::I32LoadS8(m) => {
                let a = (vm.stack.pop().unwrap() as u32 + m.offset) as usize;
                vm.stack.push(vm.memory[a] as i8 as i32);
            }
            Instruction::Call(idx) => {
                let retptr = vm.stack.pop().unwrap() as usize;
                let count = vm.stack.pop().unwrap();
                let descr = vm.stack.pop().unwrap() as usize;
                let _fd = vm.stack.pop().unwrap();
                assert_eq!(count, 1);
                let ptr =
                    u32::from_le_bytes(vm.memory[descr..descr + 4].try_into().unwrap()) as usize;
                let len = u32::from_le_bytes(vm.memory[descr + 4..descr + 8].try_into().unwrap())
                    as usize;
                let done: u32;
                if *idx == 0 {
                    let chunk: Vec<u8> = vm.memory[ptr..ptr + len].to_vec();
                    vm.output.extend_from_slice(&chunk);
                    done = len as u32;
                } else {
                    let avail = vm.input.len() - vm.in_pos;
                    let take = avail.min(len);
                    for k in 0..take {
                        vm.memory[ptr + k] = vm.input[vm.in_pos + k];
                    }
                    vm.in_pos += take;
                    done = take as u32;
                }
                vm.memory[retptr..retptr + 4].copy_from_slice(&done.to_le_bytes());
                vm.stack.push(0);
            }
            Instruction::If(None) => {
                let v = vm.stack.pop().unwrap();
                if v != 0 {
                    ctl.push(Ctl::IfBlock);
                } else {
                    pc = skip_block(instrs, pc + 1);
                    continue;
                }
            }
            Instruction::Loop(None) => ctl.push(Ctl::LoopBlock(pc)),
            Instruction::BranchIf(d) => {
                let v = vm.stack.pop().unwrap();
                if v != 0 {
                    let target = ctl.len() - 1 - *d as usize;
                    match ctl[target] {
                        Ctl::LoopBlock(start) => {
                            ctl.truncate(target + 1);
                            pc = start + 1;
                            continue;
                        }
                        Ctl::IfBlock => return Err("branch to a non-loop block"),
                    }
                }
            }
            Instruction::End => {
                ctl.pop();
            }
            Instruction::Unreachable => return Err("trap"),
            _ => return Err("instruction outside the emitted vocabulary"),
        }
        pc += 1;
    }
    Ok(())
}

fn compile_and_run(src: &str, input: &[u8]) -> Vec<u8> {
    let bytes = brainwasm::bf_to_wasm(src, None, 1, None).unwrap();
    let module = wabam::Module::load(&bytes).unwrap();
    let mut vm = Vm {
        memory: vec![0; 65536],
        local: 0,
        stack: Vec::new(),
        input: input.to_vec(),
        in_pos: 0,
        output: Vec::new(),
    };
    run(&module.functions[0].body.instructions, &mut vm).unwrap();
    assert!(vm.stack.is_empty());
    vm.output
}

#[test]
fn echo_one_byte_end_to_end() {
    assert_eq!(compile_and_run(",.", &[65]), vec![65]);
}

#[test]
fn zero_trip_loop_produces_no_output() {
    assert_eq!(compile_and_run("[.]", &[]), Vec::<u8>::new());
    assert_eq!(compile_and_run("[]", &[]), Vec::<u8>::new());
}

#[test]
fn loop_runs_until_cell_reaches_zero() {
    assert_eq!(compile_and_run("+++[.-]", &[]), vec![3, 2, 1]);
}

#[test]
fn pointer_moves_address_distinct_cells() {
    // set cell 0 to 1, cell 1 to 2, print both
    assert_eq!(compile_and_run("+>++<.>.", &[]), vec![1, 2]);
}

#[test]
fn outputs_letter_from_folded_run() {
    let src = format!("{}.", "+".repeat(65));
    assert_eq!(compile_and_run(&src, &[]), vec![65]);
}

#[test]
fn nested_loops_execute() {
    // 3 * 2 accumulated into cell 1: outputs 6
    assert_eq!(compile_and_run("+++[>++<-]>.", &[]), vec![6]);
}
