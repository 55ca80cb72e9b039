use wasm_typestack::function::{BytecodeFunction, ImportFunction};
use wasm_typestack::module::Module;
use wasm_typestack::op::Op;
use wasm_typestack::text::op_from_text_exec;
use wasm_typestack::opcode::OpInfo;
use wasm_typestack::types::{valtype_to_size, valtype_to_wasmtype, BlockTy, FuncSig, ValTy, WasmType};

fn sig(params: Vec<ValTy>, results: Vec<ValTy>) -> FuncSig {
    FuncSig { params, results }
}

/// Type 0: (i32, i64) -> f64; type 1: () -> (i32, i32); type 2: (f32) -> ().
/// Function 0 has type 1, function 1 has type 0, function 2 has type 2.
/// Globals: i64, funcref.
fn sample_module() -> Module {
    Module::new(
        vec![
            sig(vec![ValTy::I32, ValTy::I64], vec![ValTy::F64]),
            sig(vec![], vec![ValTy::I32, ValTy::I32]),
            sig(vec![ValTy::F32], vec![]),
        ],
        vec![1, 0, 2],
        vec![ValTy::I64, ValTy::Ref],
    )
}

fn sample_function() -> BytecodeFunction {
    with_body(vec![0x00, 0x0b], 0)
}

/// The sample function with the given body bytes at `offset`.
fn with_body(body: Vec<u8>, offset: u64) -> BytecodeFunction {
    BytecodeFunction::new(
        sample_module(),
        body,
        offset,
        vec![1, 2, 4],
        vec![WasmType::I32, WasmType::I64, WasmType::V128],
        BlockTy::Empty,
        vec![],
    )
}

fn run_op(f: &mut BytecodeFunction, stack: &[u8], op: Op) -> (Result<u32, String>, Vec<u8>) {
    let mut v = stack.to_vec();
    let r = f.dispatch(&mut v, &op, &format!("{:?}", op));
    (r, v)
}

#[test]
fn import_function_new() {
    let _f = ImportFunction::new();
}

#[test]
fn valtype_sizes() {
    assert_eq!(valtype_to_size(&ValTy::I32), 1);
    assert_eq!(valtype_to_size(&ValTy::F32), 1);
    assert_eq!(valtype_to_size(&ValTy::I64), 2);
    assert_eq!(valtype_to_size(&ValTy::F64), 2);
    assert_eq!(valtype_to_size(&ValTy::V128), 4);
    assert_eq!(valtype_to_size(&ValTy::Ref), 255);
}

#[test]
fn valtype_operand_types() {
    assert_eq!(valtype_to_wasmtype(&ValTy::I32), WasmType::I32);
    assert_eq!(valtype_to_wasmtype(&ValTy::I64), WasmType::I64);
    assert_eq!(valtype_to_wasmtype(&ValTy::F32), WasmType::F32);
    assert_eq!(valtype_to_wasmtype(&ValTy::F64), WasmType::F64);
    assert_eq!(valtype_to_wasmtype(&ValTy::V128), WasmType::V128);
    assert_eq!(valtype_to_wasmtype(&ValTy::Ref), WasmType::Ref);
}

#[test]
fn module_lookups() {
    let m = sample_module();
    assert!(m.is_wf());
    assert_eq!(m.get_type_by_func(0).results, vec![ValTy::I32, ValTy::I32]);
    assert_eq!(m.get_type_by_func(1).params, vec![ValTy::I32, ValTy::I64]);
    assert_eq!(m.get_type_by_type(2).params, vec![ValTy::F32]);
    assert_eq!(*m.get_type_by_global(1), ValTy::Ref);
    let bad = Module::new(vec![sig(vec![], vec![])], vec![0, 1], vec![]);
    assert!(!bad.is_wf());
}

#[test]
fn dispatch_binary_operators_pop_one() {
    let mut f = sample_function();
    assert_eq!(run_op(&mut f, &[1, 1], Op::I32Add), (Ok(0), vec![1]));
    assert_eq!(run_op(&mut f, &[2, 2], Op::I64Mul), (Ok(0), vec![2]));
    assert_eq!(run_op(&mut f, &[1, 1], Op::F32Copysign), (Ok(0), vec![1]));
    assert_eq!(run_op(&mut f, &[1, 1], Op::I32LtU), (Ok(0), vec![1]));
}

#[test]
fn dispatch_i64_comparisons_give_i32() {
    let mut f = sample_function();
    assert_eq!(run_op(&mut f, &[4, 2, 2], Op::I64Eq), (Ok(0), vec![4, 1]));
    assert_eq!(run_op(&mut f, &[2, 2], Op::F64Lt), (Ok(0), vec![1]));
    assert_eq!(run_op(&mut f, &[2], Op::I64Eqz), (Ok(0), vec![1]));
}

#[test]
fn dispatch_unary_and_nop_like_leave_stack() {
    let mut f = sample_function();
    for op in [Op::Nop, Op::Unreachable, Op::Block, Op::Loop, Op::End, Op::I32Eqz, Op::I32Clz,
        Op::F64Sqrt, Op::LocalTee, Op::MemoryGrow, Op::I32Load, Op::DataDrop, Op::I64TruncF64S] {
        assert_eq!(run_op(&mut f, &[1, 2], op), (Ok(0), vec![1, 2]));
    }
}

#[test]
fn dispatch_loads_and_constants() {
    let mut f = sample_function();
    assert_eq!(run_op(&mut f, &[1], Op::I64Load), (Ok(0), vec![2]));
    assert_eq!(run_op(&mut f, &[1], Op::F64Load), (Ok(0), vec![2]));
    assert_eq!(run_op(&mut f, &[1], Op::I64Load32U), (Ok(0), vec![2]));
    assert_eq!(run_op(&mut f, &[], Op::I32Const), (Ok(0), vec![1]));
    assert_eq!(run_op(&mut f, &[], Op::F32Const), (Ok(0), vec![1]));
    assert_eq!(run_op(&mut f, &[], Op::I64Const), (Ok(0), vec![2]));
    assert_eq!(run_op(&mut f, &[], Op::F64Const), (Ok(0), vec![2]));
    assert_eq!(run_op(&mut f, &[], Op::MemorySize), (Ok(0), vec![1]));
}

#[test]
fn dispatch_stores_and_bulk_memory() {
    let mut f = sample_function();
    assert_eq!(run_op(&mut f, &[4, 1, 2], Op::I64Store), (Ok(0), vec![4]));
    assert_eq!(run_op(&mut f, &[4, 1, 1, 1], Op::MemoryCopy), (Ok(0), vec![4]));
    assert_eq!(run_op(&mut f, &[1, 1, 1], Op::MemoryInit), (Ok(0), vec![]));
    assert_eq!(run_op(&mut f, &[1, 1], Op::TableSet), (Ok(0), vec![]));
    assert_eq!(run_op(&mut f, &[1], Op::TableGet), (Ok(0), vec![255]));
}

#[test]
fn dispatch_conversions() {
    let mut f = sample_function();
    assert_eq!(run_op(&mut f, &[2], Op::I32WrapI64), (Ok(0), vec![1]));
    assert_eq!(run_op(&mut f, &[1], Op::I64ExtendI32U), (Ok(0), vec![2]));
    assert_eq!(run_op(&mut f, &[1], Op::F64PromoteF32), (Ok(0), vec![2]));
    assert_eq!(run_op(&mut f, &[2], Op::F32DemoteF64), (Ok(0), vec![1]));
    assert_eq!(run_op(&mut f, &[2], Op::I32TruncF64S), (Ok(0), vec![1]));
    assert_eq!(run_op(&mut f, &[1], Op::F64ConvertI32S), (Ok(0), vec![2]));
}

#[test]
fn dispatch_atomics() {
    let mut f = sample_function();
    assert_eq!(run_op(&mut f, &[1, 1, 1], Op::I32AtomicRmwCmpxchg), (Ok(0), vec![1]));
    assert_eq!(run_op(&mut f, &[1, 1], Op::I32AtomicStore), (Ok(0), vec![]));
    assert_eq!(run_op(&mut f, &[1, 1], Op::MemoryAtomicNotify), (Ok(0), vec![1]));
    assert_eq!(run_op(&mut f, &[1, 1, 2], Op::MemoryAtomicWait32), (Ok(0), vec![1, 1]));
}

#[test]
fn dispatch_parametric() {
    let mut f = sample_function();
    assert_eq!(run_op(&mut f, &[2, 2, 1], Op::Select), (Ok(0), vec![2]));
    assert_eq!(run_op(&mut f, &[2, 2, 1], Op::TypedSelect), (Ok(0), vec![2]));
    assert_eq!(run_op(&mut f, &[1, 2], Op::Drop), (Ok(0), vec![1]));
}

#[test]
fn dispatch_pops_on_empty_stack_do_nothing() {
    let mut f = sample_function();
    assert_eq!(run_op(&mut f, &[], Op::I32Add), (Ok(0), vec![]));
    assert_eq!(run_op(&mut f, &[1], Op::I64Store), (Ok(0), vec![]));
    assert_eq!(run_op(&mut f, &[], Op::I64Eq), (Ok(0), vec![1]));
}

#[test]
fn dispatch_branches() {
    let mut f = sample_function();
    assert_eq!(run_op(&mut f, &[1, 2, 4], Op::Br), (Ok(0), vec![]));
    assert_eq!(run_op(&mut f, &[1, 2, 4], Op::Return), (Ok(0), vec![]));
    assert_eq!(run_op(&mut f, &[2, 1], Op::BrIf), (Ok(0), vec![2]));
    assert_eq!(run_op(&mut f, &[2, 1], Op::BrTable), (Ok(0), vec![2]));
}

#[test]
fn dispatch_if_else_block_types() {
    let mut f = sample_function();
    assert_eq!(run_op(&mut f, &[2, 1], Op::If { blockty: BlockTy::Empty }), (Ok(0), vec![2]));
    assert_eq!(f.else_blockty, BlockTy::Empty);
    assert_eq!(run_op(&mut f, &[2], Op::Else), (Ok(0), vec![2]));

    assert_eq!(run_op(&mut f, &[1], Op::If { blockty: BlockTy::Type(ValTy::I64) }), (Ok(0), vec![]));
    assert_eq!(f.else_blockty, BlockTy::Type(ValTy::I64));
    assert_eq!(run_op(&mut f, &[2], Op::Else), (Ok(0), vec![]));

    // type 0: (i32, i64) -> f64: the result leaves, the params return
    assert_eq!(run_op(&mut f, &[4, 1], Op::If { blockty: BlockTy::FuncType(0) }), (Ok(0), vec![4]));
    assert_eq!(f.else_blockty, BlockTy::FuncType(0));
    assert_eq!(run_op(&mut f, &[4, 2], Op::Else), (Ok(0), vec![4, 1, 2]));
    // other operators keep the block type
    assert_eq!(run_op(&mut f, &[], Op::Nop), (Ok(0), vec![]));
    assert_eq!(f.else_blockty, BlockTy::FuncType(0));
}

#[test]
fn dispatch_calls() {
    let mut f = sample_function();
    // function 1 has type (i32, i64) -> f64
    assert_eq!(run_op(&mut f, &[4, 1, 2], Op::Call { function_index: 1 }), (Ok(0), vec![4, 2]));
    // function 0 has type () -> (i32, i32)
    assert_eq!(run_op(&mut f, &[4], Op::Call { function_index: 0 }), (Ok(0), vec![4, 1, 1]));
    // type 2 is (f32) -> (); the table index goes first
    assert_eq!(run_op(&mut f, &[4, 1, 1], Op::CallIndirect { type_index: 2 }), (Ok(0), vec![4]));
    assert_eq!(run_op(&mut f, &[4, 1, 2, 1], Op::CallIndirect { type_index: 0 }), (Ok(0), vec![4, 2]));
}

#[test]
fn dispatch_variables() {
    let mut f = sample_function();
    assert_eq!(run_op(&mut f, &[], Op::LocalGet { local_index: 1 }), (Ok(0), vec![2]));
    assert_eq!(run_op(&mut f, &[], Op::LocalGet { local_index: 2 }), (Ok(0), vec![4]));
    assert_eq!(run_op(&mut f, &[], Op::GlobalGet { global_index: 0 }), (Ok(0), vec![2]));
    assert_eq!(run_op(&mut f, &[], Op::GlobalGet { global_index: 1 }), (Ok(0), vec![255]));
    assert_eq!(run_op(&mut f, &[1, 2], Op::LocalSet), (Ok(0), vec![1]));
    assert_eq!(run_op(&mut f, &[1, 2], Op::GlobalSet), (Ok(0), vec![1]));
}

#[test]
fn dispatch_unsupported_operator() {
    let mut f = sample_function();
    let mut v = vec![1, 2];
    let r = f.dispatch(&mut v, &Op::Other, "RefIsNull");
    assert_eq!(r, Err("function.rs Unsupported operator: RefIsNull".to_string()));
    assert_eq!(v, vec![1, 2]);
    assert_eq!(f.else_blockty, BlockTy::Empty);
}

fn info(f: &BytecodeFunction, op: Op) -> (Vec<WasmType>, Vec<WasmType>) {
    let OpInfo { input, output } = f.opinfo(&op);
    (input, output)
}

#[test]
fn opinfo_numeric() {
    let f = sample_function();
    assert_eq!(info(&f, Op::I32Add), (vec![WasmType::I32, WasmType::I32], vec![WasmType::I32]));
    assert_eq!(info(&f, Op::I64Eqz), (vec![WasmType::I64], vec![WasmType::I32]));
    assert_eq!(info(&f, Op::F32Eq), (vec![WasmType::I32, WasmType::I32], vec![WasmType::I32]));
    assert_eq!(info(&f, Op::F64Ge), (vec![WasmType::I64, WasmType::I64], vec![WasmType::I32]));
    assert_eq!(info(&f, Op::F64Sqrt), (vec![WasmType::F64], vec![WasmType::F64]));
    assert_eq!(info(&f, Op::F32DemoteF64), (vec![WasmType::I64], vec![WasmType::F32]));
    assert_eq!(info(&f, Op::I64ReinterpretF64), (vec![WasmType::F64], vec![WasmType::I64]));
    assert_eq!(info(&f, Op::F64Const), (vec![], vec![WasmType::F64]));
}

#[test]
fn opinfo_control_and_memory() {
    let f = sample_function();
    assert_eq!(info(&f, Op::If { blockty: BlockTy::Empty }), (vec![], vec![]));
    assert_eq!(info(&f, Op::Br), (vec![], vec![]));
    assert_eq!(info(&f, Op::BrIf), (vec![WasmType::I32], vec![]));
    assert_eq!(info(&f, Op::Select), (vec![WasmType::Any, WasmType::Any, WasmType::I32], vec![WasmType::Any]));
    assert_eq!(info(&f, Op::Drop), (vec![WasmType::Any], vec![]));
    assert_eq!(info(&f, Op::TableSet), (vec![WasmType::I32, WasmType::Any], vec![]));
    assert_eq!(info(&f, Op::F64Load), (vec![WasmType::I32], vec![WasmType::F64]));
    assert_eq!(info(&f, Op::I64Store8), (vec![WasmType::Any, WasmType::Any], vec![]));
    assert_eq!(info(&f, Op::MemoryFill), (vec![WasmType::I32, WasmType::I32, WasmType::I32], vec![]));
    assert_eq!(info(&f, Op::DataDrop), (vec![], vec![]));
    assert_eq!(info(&f, Op::MemoryAtomicWait32), (vec![WasmType::I32, WasmType::I32, WasmType::I64], vec![WasmType::I32]));
    assert_eq!(info(&f, Op::I32AtomicRmwCmpxchg), (vec![WasmType::I32, WasmType::I32, WasmType::I32], vec![WasmType::I32]));
}

#[test]
fn opinfo_calls_and_variables() {
    let f = sample_function();
    assert_eq!(info(&f, Op::Call { function_index: 1 }), (vec![WasmType::I32, WasmType::I64], vec![WasmType::F64]));
    assert_eq!(info(&f, Op::Call { function_index: 0 }), (vec![], vec![WasmType::I32, WasmType::I32]));
    assert_eq!(info(&f, Op::CallIndirect { type_index: 2 }), (vec![WasmType::F32, WasmType::I32], vec![]));
    assert_eq!(info(&f, Op::LocalGet { local_index: 2 }), (vec![], vec![WasmType::V128]));
    assert_eq!(info(&f, Op::GlobalGet { global_index: 1 }), (vec![], vec![WasmType::Ref]));
    assert_eq!(f.get_type_by_local(1), &WasmType::I64);
}

/// Sizes fitting the given operand types (`Any` taken as an i32 slot).
fn slots_for(tys: &[WasmType]) -> Vec<u8> {
    tys.iter()
        .map(|t| match t {
            WasmType::I32 | WasmType::F32 | WasmType::Any => 1,
            WasmType::I64 | WasmType::F64 => 2,
            WasmType::V128 => 4,
            WasmType::Ref => 255,
        })
        .collect()
}

#[test]
fn dispatch_follows_signature_on_samples() {
    let ops = [
        Op::I32Add, Op::I64Eq, Op::F32Eq, Op::F64Load, Op::F32DemoteF64, Op::Select, Op::I64Store,
        Op::Call { function_index: 1 }, Op::CallIndirect { type_index: 0 },
        Op::LocalGet { local_index: 1 }, Op::GlobalGet { global_index: 0 }, Op::MemoryAtomicNotify,
        Op::I32TruncF32U, Op::TableSet,
    ];
    for op in ops {
        let mut f = sample_function();
        let (input, output) = info(&f, op);
        let mut stack = vec![4u8];
        stack.extend(slots_for(&input));
        let (r, after) = run_op(&mut f, &stack, op);
        assert_eq!(r, Ok(0));
        assert_eq!(after.len(), 1 + output.len(), "{:?}", op);
        assert_eq!(after[0], 4);
        for (size, t) in after[1..].iter().zip(output.iter()) {
            if *t != WasmType::Any {
                assert_eq!(*size, slots_for(&[*t])[0], "{:?}", op);
            }
        }
    }
}

#[test]
fn construct_records_type_stacks() {
    // no locals; i32.const 5; local.get 1; call 1; call 0; ref.is_null; drop; end
    let body = vec![0x00, 0x41, 0x05, 0x20, 0x01, 0x10, 0x01, 0x10, 0x00, 0xd1, 0x1a, 0x0b];
    let mut f = with_body(body, 100);
    assert_eq!(f.construct(), Ok(()));
    let want: Vec<(Op, &str, u32, Vec<u8>, u32)> = vec![
        (Op::Nop, "Nop", 0, vec![], 0),
        (Op::I32Const, "I32Const { value: 5 }", 2, vec![1], 0),
        (Op::LocalGet { local_index: 1 }, "LocalGet { local_index: 1 }", 4, vec![1, 2], 0),
        (Op::Call { function_index: 1 }, "Call { function_index: 1 }", 6, vec![2], 1),
        (Op::Call { function_index: 0 }, "Call { function_index: 0 }", 8, vec![2, 1, 1], 2),
        (Op::Other, "RefIsNull", 9, vec![2, 1, 1], 0),
        (Op::Drop, "Drop", 10, vec![2, 1], 0),
        (Op::End, "End", 11, vec![2, 1], 0),
    ];
    assert_eq!(f.codes.len(), want.len());
    for (got, (opcode, text, offset, stack, callee)) in f.codes.iter().zip(want.iter()) {
        assert_eq!(got.opcode, *opcode);
        assert_eq!(got.operator, *text);
        assert_eq!(got.offset, *offset);
        assert_eq!(got.type_stack, *stack);
        assert_eq!(got.callee_return_size, *callee);
    }
}

#[test]
fn construct_tracks_else_block_type() {
    // i32.const 1; i32.const 2; i64.const 3; i32.const 4; if (type 0); call 1; else; end; end
    let body = vec![
        0x00, 0x41, 0x01, 0x41, 0x02, 0x42, 0x03, 0x41, 0x04, 0x04, 0x00, 0x10, 0x01, 0x05, 0x0b, 0x0b,
    ];
    let mut f = with_body(body, 0);
    assert_eq!(f.construct(), Ok(()));
    assert_eq!(f.codes[5].opcode, Op::If { blockty: BlockTy::FuncType(0) });
    assert_eq!(f.codes[5].type_stack, vec![1, 1, 2]);
    assert_eq!(f.codes[6].type_stack, vec![1, 2]);
    assert_eq!(f.codes[7].type_stack, vec![1, 1, 2]);
    assert_eq!(f.else_blockty, BlockTy::FuncType(0));
}

#[test]
fn construct_accepts_if_with_unknown_type_when_no_else() {
    // i32.const 0; if (type 9); end; end
    let body = vec![0x00, 0x41, 0x00, 0x04, 0x09, 0x0b, 0x0b];
    let mut f = with_body(body, 0);
    assert_eq!(f.construct(), Ok(()));
    assert_eq!(f.codes.len(), 5);
    assert_eq!(f.else_blockty, BlockTy::FuncType(9));
}

#[test]
fn construct_refuses_else_with_unknown_type() {
    // i32.const 0; if (type 9); else; end; end
    let body = vec![0x00, 0x41, 0x00, 0x04, 0x09, 0x05, 0x0b, 0x0b];
    let mut f = with_body(body, 0);
    assert!(f.construct().is_err());
    assert!(f.codes.is_empty());
    assert_eq!(f.else_blockty, BlockTy::Empty);
}

#[test]
fn construct_refuses_missing_function() {
    // call 9; end
    let mut f = with_body(vec![0x00, 0x10, 0x09, 0x0b], 0);
    assert!(f.construct().is_err());
    assert!(f.codes.is_empty());
}

#[test]
fn construct_refuses_unreadable_body() {
    // i32.const with its immediate cut off
    let mut f = with_body(vec![0x00, 0x41], 0);
    assert!(f.construct().is_err());
    assert!(f.codes.is_empty());
    assert_eq!(f.else_blockty, BlockTy::Empty);
}

#[test]
fn construct_keeps_block_type_of_ifs_read_before_a_malformed_operator() {
    // i32.const 0; if (type 0); i32.const with its immediate cut off
    let mut f = with_body(vec![0x00, 0x41, 0x00, 0x04, 0x00, 0x41], 0);
    assert!(f.construct().is_err());
    assert!(f.codes.is_empty());
    assert_eq!(f.else_blockty, BlockTy::FuncType(0));
}

#[test]
fn construct_refuses_body_past_largest_position() {
    let mut f = with_body(vec![0x00, 0x0b], u64::MAX - 1);
    assert_eq!(f.construct(), Err("the body ends past the largest position".to_string()));
    assert!(f.codes.is_empty());
}

#[test]
fn construct_accepts_call_of_valid_function_in_module_with_a_bad_one() {
    // function 1 of this module names a missing type; the body calls function 0
    let m = Module::new(vec![sig(vec![], vec![ValTy::I32])], vec![0, 7], vec![]);
    let mut f = BytecodeFunction::new(m, vec![0x00, 0x10, 0x00, 0x0b], 0, vec![], vec![], BlockTy::Empty, vec![]);
    assert_eq!(f.construct(), Ok(()));
    assert_eq!(f.codes[1].type_stack, vec![1]);
    assert_eq!(f.codes[1].callee_return_size, 1);
    let mut g = BytecodeFunction::new(
        Module::new(vec![sig(vec![], vec![ValTy::I32])], vec![0, 7], vec![]),
        vec![0x00, 0x10, 0x01, 0x0b],
        0,
        vec![],
        vec![],
        BlockTy::Empty,
        vec![],
    );
    assert_eq!(
        g.construct(),
        Err("an operator refers to a missing function, type, local or global".to_string())
    );
}

#[test]
fn construct_empty_body() {
    let mut f = sample_function();
    assert_eq!(f.construct(), Ok(()));
    assert_eq!(f.codes.len(), 2);
    assert_eq!(f.codes[0].opcode, Op::Nop);
    assert!(f.codes[0].type_stack.is_empty());
    assert_eq!(f.codes[1].opcode, Op::End);
    assert_eq!(f.codes[1].offset, 1);
}

#[test]
fn operator_text_is_read_back() {
    assert_eq!(op_from_text_exec("Nop"), Op::Nop);
    assert_eq!(op_from_text_exec("I32Load { memarg: MemArg { align: 2, max_align: 2, offset: 0, memory: 0 } }"), Op::I32Load);
    assert_eq!(op_from_text_exec("I32Load8S { memarg: MemArg { align: 0, max_align: 0, offset: 0, memory: 0 } }"), Op::I32Load8S);
    assert_eq!(op_from_text_exec("Call { function_index: 4294967295 }"), Op::Call { function_index: 4294967295 });
    assert_eq!(op_from_text_exec("Call { function_index: 4294967296 }"), Op::Other);
    assert_eq!(op_from_text_exec("CallIndirect { type_index: 12, table_index: 3 }"), Op::CallIndirect { type_index: 12 });
    assert_eq!(op_from_text_exec("GlobalGet { global_index: 7 }"), Op::GlobalGet { global_index: 7 });
    assert_eq!(op_from_text_exec("If { blockty: Empty }"), Op::If { blockty: BlockTy::Empty });
    assert_eq!(op_from_text_exec("If { blockty: Type(F64) }"), Op::If { blockty: BlockTy::Type(ValTy::F64) });
    assert_eq!(op_from_text_exec("If { blockty: Type(funcref) }"), Op::If { blockty: BlockTy::Type(ValTy::Ref) });
    assert_eq!(op_from_text_exec("If { blockty: FuncType(3) }"), Op::If { blockty: BlockTy::FuncType(3) });
    assert_eq!(op_from_text_exec("RefIsNull"), Op::Other);
    assert_eq!(op_from_text_exec("I32AtomicRmwCmpxchg { memarg: MemArg { align: 2, max_align: 2, offset: 0, memory: 0 } }"), Op::I32AtomicRmwCmpxchg);
}

#[test]
fn ops_checks() {
    let f = sample_function();
    assert!(f.refs_ok(&Op::Call { function_index: 2 }));
    assert!(!f.refs_ok(&Op::Call { function_index: 3 }));
    assert!(!f.refs_ok(&Op::CallIndirect { type_index: 3 }));
    assert!(!f.refs_ok(&Op::LocalGet { local_index: 3 }));
    assert!(!f.refs_ok(&Op::GlobalGet { global_index: 2 }));
    assert!(f.refs_ok(&Op::If { blockty: BlockTy::FuncType(9) }));
}

#[test]
fn construct_codes_do_not_depend_on_start_blockty() {
    // i32.const 0; if (type 0); else; end; end
    let body = vec![0x00, 0x41, 0x00, 0x04, 0x00, 0x05, 0x0b, 0x0b];
    let mut a = with_body(body.clone(), 0);
    let mut b = with_body(body, 0);
    b.else_blockty = BlockTy::Type(ValTy::I64);
    assert_eq!(a.construct(), Ok(()));
    assert_eq!(b.construct(), Ok(()));
    assert_eq!(a.codes.len(), b.codes.len());
    for (x, y) in a.codes.iter().zip(b.codes.iter()) {
        assert_eq!(x.type_stack, y.type_stack);
        assert_eq!(x.operator, y.operator);
    }
    // constructing again gives the same codes
    let first: Vec<Vec<u8>> = a.codes.iter().map(|c| c.type_stack.clone()).collect();
    assert_eq!(a.construct(), Ok(()));
    let second: Vec<Vec<u8>> = a.codes.iter().map(|c| c.type_stack.clone()).collect();
    assert_eq!(first, second);
}
