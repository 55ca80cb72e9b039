//! Laws that pin down, operator by operator, what the analysis does.

use vstd::prelude::*;

use crate::function::{
    blockty_ok, body_end, callee_return_size, construct_outcome, decode_ops, next_blockty, op_refs_ok, op_seq, ops_valid,
    rel_offset, run, spec_read_operators, step_stack, BytecodeFunction,
};
use crate::module::Module;
use crate::op::{DecodedOp, Op};
use crate::opcode::op_signature;
use crate::text::{immediate, name_is, op_from_text, parse_blockty};
use crate::types::{valty_size, valty_sizes, valty_wasmtype, valty_wasmtypes, BlockTy, ValTy, WasmType};

verus! {

/// The name an operator's decoder prints for it.
pub open spec fn op_name(op: Op) -> Seq<char> {
    match op {
        Op::Unreachable => "Unreachable"@,
        Op::Nop => "Nop"@,
        Op::Block => "Block"@,
        Op::Loop => "Loop"@,
        Op::If { .. } => "If"@,
        Op::Else => "Else"@,
        Op::End => "End"@,
        Op::Br => "Br"@,
        Op::BrIf => "BrIf"@,
        Op::BrTable => "BrTable"@,
        Op::Return => "Return"@,
        Op::Call { .. } => "Call"@,
        Op::CallIndirect { .. } => "CallIndirect"@,
        Op::Drop => "Drop"@,
        Op::Select => "Select"@,
        Op::LocalGet { .. } => "LocalGet"@,
        Op::LocalSet => "LocalSet"@,
        Op::LocalTee => "LocalTee"@,
        Op::GlobalGet { .. } => "GlobalGet"@,
        Op::GlobalSet => "GlobalSet"@,
        Op::I32Load => "I32Load"@,
        Op::I64Load => "I64Load"@,
        Op::F32Load => "F32Load"@,
        Op::F64Load => "F64Load"@,
        Op::I32Load8S => "I32Load8S"@,
        Op::I32Load8U => "I32Load8U"@,
        Op::I32Load16S => "I32Load16S"@,
        Op::I32Load16U => "I32Load16U"@,
        Op::I64Load8S => "I64Load8S"@,
        Op::I64Load8U => "I64Load8U"@,
        Op::I64Load16S => "I64Load16S"@,
        Op::I64Load16U => "I64Load16U"@,
        Op::I64Load32S => "I64Load32S"@,
        Op::I64Load32U => "I64Load32U"@,
        Op::I32Store => "I32Store"@,
        Op::I64Store => "I64Store"@,
        Op::F32Store => "F32Store"@,
        Op::F64Store => "F64Store"@,
        Op::I32Store8 => "I32Store8"@,
        Op::I32Store16 => "I32Store16"@,
        Op::I64Store8 => "I64Store8"@,
        Op::I64Store16 => "I64Store16"@,
        Op::I64Store32 => "I64Store32"@,
        Op::MemorySize => "MemorySize"@,
        Op::MemoryGrow => "MemoryGrow"@,
        Op::I32Const => "I32Const"@,
        Op::I64Const => "I64Const"@,
        Op::F32Const => "F32Const"@,
        Op::F64Const => "F64Const"@,
        Op::I32Eqz => "I32Eqz"@,
        Op::I32Eq => "I32Eq"@,
        Op::I32Ne => "I32Ne"@,
        Op::I32LtS => "I32LtS"@,
        Op::I32LtU => "I32LtU"@,
        Op::I32GtS => "I32GtS"@,
        Op::I32GtU => "I32GtU"@,
        Op::I32LeS => "I32LeS"@,
        Op::I32LeU => "I32LeU"@,
        Op::I32GeS => "I32GeS"@,
        Op::I32GeU => "I32GeU"@,
        Op::I64Eqz => "I64Eqz"@,
        Op::I64Eq => "I64Eq"@,
        Op::I64Ne => "I64Ne"@,
        Op::I64LtS => "I64LtS"@,
        Op::I64LtU => "I64LtU"@,
        Op::I64GtS => "I64GtS"@,
        Op::I64GtU => "I64GtU"@,
        Op::I64LeS => "I64LeS"@,
        Op::I64LeU => "I64LeU"@,
        Op::I64GeS => "I64GeS"@,
        Op::I64GeU => "I64GeU"@,
        Op::F32Eq => "F32Eq"@,
        Op::F32Ne => "F32Ne"@,
        Op::F32Lt => "F32Lt"@,
        Op::F32Gt => "F32Gt"@,
        Op::F32Le => "F32Le"@,
        Op::F32Ge => "F32Ge"@,
        Op::F64Eq => "F64Eq"@,
        Op::F64Ne => "F64Ne"@,
        Op::F64Lt => "F64Lt"@,
        Op::F64Gt => "F64Gt"@,
        Op::F64Le => "F64Le"@,
        Op::F64Ge => "F64Ge"@,
        Op::I32Clz => "I32Clz"@,
        Op::I32Ctz => "I32Ctz"@,
        Op::I32Popcnt => "I32Popcnt"@,
        Op::I32Add => "I32Add"@,
        Op::I32Sub => "I32Sub"@,
        Op::I32Mul => "I32Mul"@,
        Op::I32DivS => "I32DivS"@,
        Op::I32DivU => "I32DivU"@,
        Op::I32RemS => "I32RemS"@,
        Op::I32RemU => "I32RemU"@,
        Op::I32And => "I32And"@,
        Op::I32Or => "I32Or"@,
        Op::I32Xor => "I32Xor"@,
        Op::I32Shl => "I32Shl"@,
        Op::I32ShrS => "I32ShrS"@,
        Op::I32ShrU => "I32ShrU"@,
        Op::I32Rotl => "I32Rotl"@,
        Op::I32Rotr => "I32Rotr"@,
        Op::I64Clz => "I64Clz"@,
        Op::I64Ctz => "I64Ctz"@,
        Op::I64Popcnt => "I64Popcnt"@,
        Op::I64Add => "I64Add"@,
        Op::I64Sub => "I64Sub"@,
        Op::I64Mul => "I64Mul"@,
        Op::I64DivS => "I64DivS"@,
        Op::I64DivU => "I64DivU"@,
        Op::I64RemS => "I64RemS"@,
        Op::I64RemU => "I64RemU"@,
        Op::I64And => "I64And"@,
        Op::I64Or => "I64Or"@,
        Op::I64Xor => "I64Xor"@,
        Op::I64Shl => "I64Shl"@,
        Op::I64ShrS => "I64ShrS"@,
        Op::I64ShrU => "I64ShrU"@,
        Op::I64Rotl => "I64Rotl"@,
        Op::I64Rotr => "I64Rotr"@,
        Op::F32Abs => "F32Abs"@,
        Op::F32Neg => "F32Neg"@,
        Op::F32Ceil => "F32Ceil"@,
        Op::F32Floor => "F32Floor"@,
        Op::F32Trunc => "F32Trunc"@,
        Op::F32Nearest => "F32Nearest"@,
        Op::F32Sqrt => "F32Sqrt"@,
        Op::F32Add => "F32Add"@,
        Op::F32Sub => "F32Sub"@,
        Op::F32Mul => "F32Mul"@,
        Op::F32Div => "F32Div"@,
        Op::F32Min => "F32Min"@,
        Op::F32Max => "F32Max"@,
        Op::F32Copysign => "F32Copysign"@,
        Op::F64Abs => "F64Abs"@,
        Op::F64Neg => "F64Neg"@,
        Op::F64Ceil => "F64Ceil"@,
        Op::F64Floor => "F64Floor"@,
        Op::F64Trunc => "F64Trunc"@,
        Op::F64Nearest => "F64Nearest"@,
        Op::F64Sqrt => "F64Sqrt"@,
        Op::F64Add => "F64Add"@,
        Op::F64Sub => "F64Sub"@,
        Op::F64Mul => "F64Mul"@,
        Op::F64Div => "F64Div"@,
        Op::F64Min => "F64Min"@,
        Op::F64Max => "F64Max"@,
        Op::F64Copysign => "F64Copysign"@,
        Op::I32WrapI64 => "I32WrapI64"@,
        Op::I32TruncF32S => "I32TruncF32S"@,
        Op::I32TruncF32U => "I32TruncF32U"@,
        Op::I32TruncF64S => "I32TruncF64S"@,
        Op::I32TruncF64U => "I32TruncF64U"@,
        Op::I64ExtendI32S => "I64ExtendI32S"@,
        Op::I64ExtendI32U => "I64ExtendI32U"@,
        Op::I64TruncF32S => "I64TruncF32S"@,
        Op::I64TruncF32U => "I64TruncF32U"@,
        Op::I64TruncF64S => "I64TruncF64S"@,
        Op::I64TruncF64U => "I64TruncF64U"@,
        Op::F32ConvertI32S => "F32ConvertI32S"@,
        Op::F32ConvertI32U => "F32ConvertI32U"@,
        Op::F32ConvertI64S => "F32ConvertI64S"@,
        Op::F32ConvertI64U => "F32ConvertI64U"@,
        Op::F32DemoteF64 => "F32DemoteF64"@,
        Op::F64ConvertI32S => "F64ConvertI32S"@,
        Op::F64ConvertI32U => "F64ConvertI32U"@,
        Op::F64ConvertI64S => "F64ConvertI64S"@,
        Op::F64ConvertI64U => "F64ConvertI64U"@,
        Op::F64PromoteF32 => "F64PromoteF32"@,
        Op::I32ReinterpretF32 => "I32ReinterpretF32"@,
        Op::I64ReinterpretF64 => "I64ReinterpretF64"@,
        Op::F32ReinterpretI32 => "F32ReinterpretI32"@,
        Op::F64ReinterpretI64 => "F64ReinterpretI64"@,
        Op::I32Extend8S => "I32Extend8S"@,
        Op::I32Extend16S => "I32Extend16S"@,
        Op::I64Extend8S => "I64Extend8S"@,
        Op::I64Extend16S => "I64Extend16S"@,
        Op::I64Extend32S => "I64Extend32S"@,
        Op::MemoryInit => "MemoryInit"@,
        Op::DataDrop => "DataDrop"@,
        Op::MemoryCopy => "MemoryCopy"@,
        Op::MemoryFill => "MemoryFill"@,
        Op::TypedSelect => "TypedSelect"@,
        Op::TableGet => "TableGet"@,
        Op::TableSet => "TableSet"@,
        Op::MemoryAtomicNotify => "MemoryAtomicNotify"@,
        Op::MemoryAtomicWait32 => "MemoryAtomicWait32"@,
        Op::I32AtomicStore => "I32AtomicStore"@,
        Op::I32AtomicRmwCmpxchg => "I32AtomicRmwCmpxchg"@,
        Op::Other => "Other"@,
    }
}

/// Reading an operator back from its text keeps its name: a text that
/// starts with the name of an operator reads as that operator, with the
/// immediates the text shows.
#[verifier::rlimit(100)]
pub proof fn lemma_text_names(op: Op, t: Seq<char>)
    requires
        !(op is Other),
        name_is(t, op_name(op)),
    ensures
        !(op is If || op is Call || op is CallIndirect || op is LocalGet || op is GlobalGet)
            ==> op_from_text(t) == op,
        op is If ==> op_from_text(t) == match parse_blockty(t) {
            Some(b) => Op::If { blockty: b },
            None => Op::Other,
        },
        op is Call ==> op_from_text(t) == match immediate(t) {
            Some(n) => Op::Call { function_index: n },
            None => Op::Other,
        },
        op is CallIndirect ==> op_from_text(t) == match immediate(t) {
            Some(n) => Op::CallIndirect { type_index: n },
            None => Op::Other,
        },
        op is LocalGet ==> op_from_text(t) == match immediate(t) {
            Some(n) => Op::LocalGet { local_index: n },
            None => Op::Other,
        },
        op is GlobalGet ==> op_from_text(t) == match immediate(t) {
            Some(n) => Op::GlobalGet { global_index: n },
            None => Op::Other,
        },
{
    // the names' characters: names of equal length differ at the index
    // given in each arm below
    reveal_strlit("Unreachable");
    reveal_strlit("Nop");
    reveal_strlit("Block");
    reveal_strlit("Loop");
    reveal_strlit("If");
    reveal_strlit("Else");
    reveal_strlit("End");
    reveal_strlit("Br");
    reveal_strlit("BrIf");
    reveal_strlit("BrTable");
    reveal_strlit("Return");
    reveal_strlit("Call");
    reveal_strlit("CallIndirect");
    reveal_strlit("Drop");
    reveal_strlit("Select");
    reveal_strlit("LocalGet");
    reveal_strlit("LocalSet");
    reveal_strlit("LocalTee");
    reveal_strlit("GlobalGet");
    reveal_strlit("GlobalSet");
    reveal_strlit("I32Load");
    reveal_strlit("I64Load");
    reveal_strlit("F32Load");
    reveal_strlit("F64Load");
    reveal_strlit("I32Load8S");
    reveal_strlit("I32Load8U");
    reveal_strlit("I32Load16S");
    reveal_strlit("I32Load16U");
    reveal_strlit("I64Load8S");
    reveal_strlit("I64Load8U");
    reveal_strlit("I64Load16S");
    reveal_strlit("I64Load16U");
    reveal_strlit("I64Load32S");
    reveal_strlit("I64Load32U");
    reveal_strlit("I32Store");
    reveal_strlit("I64Store");
    reveal_strlit("F32Store");
    reveal_strlit("F64Store");
    reveal_strlit("I32Store8");
    reveal_strlit("I32Store16");
    reveal_strlit("I64Store8");
    reveal_strlit("I64Store16");
    reveal_strlit("I64Store32");
    reveal_strlit("MemorySize");
    reveal_strlit("MemoryGrow");
    reveal_strlit("I32Const");
    reveal_strlit("I64Const");
    reveal_strlit("F32Const");
    reveal_strlit("F64Const");
    reveal_strlit("I32Eqz");
    reveal_strlit("I32Eq");
    reveal_strlit("I32Ne");
    reveal_strlit("I32LtS");
    reveal_strlit("I32LtU");
    reveal_strlit("I32GtS");
    reveal_strlit("I32GtU");
    reveal_strlit("I32LeS");
    reveal_strlit("I32LeU");
    reveal_strlit("I32GeS");
    reveal_strlit("I32GeU");
    reveal_strlit("I64Eqz");
    reveal_strlit("I64Eq");
    reveal_strlit("I64Ne");
    reveal_strlit("I64LtS");
    reveal_strlit("I64LtU");
    reveal_strlit("I64GtS");
    reveal_strlit("I64GtU");
    reveal_strlit("I64LeS");
    reveal_strlit("I64LeU");
    reveal_strlit("I64GeS");
    reveal_strlit("I64GeU");
    reveal_strlit("F32Eq");
    reveal_strlit("F32Ne");
    reveal_strlit("F32Lt");
    reveal_strlit("F32Gt");
    reveal_strlit("F32Le");
    reveal_strlit("F32Ge");
    reveal_strlit("F64Eq");
    reveal_strlit("F64Ne");
    reveal_strlit("F64Lt");
    reveal_strlit("F64Gt");
    reveal_strlit("F64Le");
    reveal_strlit("F64Ge");
    reveal_strlit("I32Clz");
    reveal_strlit("I32Ctz");
    reveal_strlit("I32Popcnt");
    reveal_strlit("I32Add");
    reveal_strlit("I32Sub");
    reveal_strlit("I32Mul");
    reveal_strlit("I32DivS");
    reveal_strlit("I32DivU");
    reveal_strlit("I32RemS");
    reveal_strlit("I32RemU");
    reveal_strlit("I32And");
    reveal_strlit("I32Or");
    reveal_strlit("I32Xor");
    reveal_strlit("I32Shl");
    reveal_strlit("I32ShrS");
    reveal_strlit("I32ShrU");
    reveal_strlit("I32Rotl");
    reveal_strlit("I32Rotr");
    reveal_strlit("I64Clz");
    reveal_strlit("I64Ctz");
    reveal_strlit("I64Popcnt");
    reveal_strlit("I64Add");
    reveal_strlit("I64Sub");
    reveal_strlit("I64Mul");
    reveal_strlit("I64DivS");
    reveal_strlit("I64DivU");
    reveal_strlit("I64RemS");
    reveal_strlit("I64RemU");
    reveal_strlit("I64And");
    reveal_strlit("I64Or");
    reveal_strlit("I64Xor");
    reveal_strlit("I64Shl");
    reveal_strlit("I64ShrS");
    reveal_strlit("I64ShrU");
    reveal_strlit("I64Rotl");
    reveal_strlit("I64Rotr");
    reveal_strlit("F32Abs");
    reveal_strlit("F32Neg");
    reveal_strlit("F32Ceil");
    reveal_strlit("F32Floor");
    reveal_strlit("F32Trunc");
    reveal_strlit("F32Nearest");
    reveal_strlit("F32Sqrt");
    reveal_strlit("F32Add");
    reveal_strlit("F32Sub");
    reveal_strlit("F32Mul");
    reveal_strlit("F32Div");
    reveal_strlit("F32Min");
    reveal_strlit("F32Max");
    reveal_strlit("F32Copysign");
    reveal_strlit("F64Abs");
    reveal_strlit("F64Neg");
    reveal_strlit("F64Ceil");
    reveal_strlit("F64Floor");
    reveal_strlit("F64Trunc");
    reveal_strlit("F64Nearest");
    reveal_strlit("F64Sqrt");
    reveal_strlit("F64Add");
    reveal_strlit("F64Sub");
    reveal_strlit("F64Mul");
    reveal_strlit("F64Div");
    reveal_strlit("F64Min");
    reveal_strlit("F64Max");
    reveal_strlit("F64Copysign");
    reveal_strlit("I32WrapI64");
    reveal_strlit("I32TruncF32S");
    reveal_strlit("I32TruncF32U");
    reveal_strlit("I32TruncF64S");
    reveal_strlit("I32TruncF64U");
    reveal_strlit("I64ExtendI32S");
    reveal_strlit("I64ExtendI32U");
    reveal_strlit("I64TruncF32S");
    reveal_strlit("I64TruncF32U");
    reveal_strlit("I64TruncF64S");
    reveal_strlit("I64TruncF64U");
    reveal_strlit("F32ConvertI32S");
    reveal_strlit("F32ConvertI32U");
    reveal_strlit("F32ConvertI64S");
    reveal_strlit("F32ConvertI64U");
    reveal_strlit("F32DemoteF64");
    reveal_strlit("F64ConvertI32S");
    reveal_strlit("F64ConvertI32U");
    reveal_strlit("F64ConvertI64S");
    reveal_strlit("F64ConvertI64U");
    reveal_strlit("F64PromoteF32");
    reveal_strlit("I32ReinterpretF32");
    reveal_strlit("I64ReinterpretF64");
    reveal_strlit("F32ReinterpretI32");
    reveal_strlit("F64ReinterpretI64");
    reveal_strlit("I32Extend8S");
    reveal_strlit("I32Extend16S");
    reveal_strlit("I64Extend8S");
    reveal_strlit("I64Extend16S");
    reveal_strlit("I64Extend32S");
    reveal_strlit("MemoryInit");
    reveal_strlit("DataDrop");
    reveal_strlit("MemoryCopy");
    reveal_strlit("MemoryFill");
    reveal_strlit("TypedSelect");
    reveal_strlit("TableGet");
    reveal_strlit("TableSet");
    reveal_strlit("MemoryAtomicNotify");
    reveal_strlit("MemoryAtomicWait32");
    reveal_strlit("I32AtomicStore");
    reveal_strlit("I32AtomicRmwCmpxchg");
    match op {
        Op::Unreachable => {},
        Op::Nop => {},
        Op::Block => {},
        Op::Loop => {},
        Op::If { .. } => {},
        Op::Else => {
            assert("Loop"@[0] != "Else"@[0]);
        },
        Op::End => {
            assert("Nop"@[0] != "End"@[0]);
        },
        Op::Br => {
            assert("If"@[0] != "Br"@[0]);
        },
        Op::BrIf => {
            assert("Loop"@[0] != "BrIf"@[0]);
            assert("Else"@[0] != "BrIf"@[0]);
        },
        Op::BrTable => {},
        Op::Return => {},
        Op::Call { .. } => {
            assert("Loop"@[0] != "Call"@[0]);
            assert("Else"@[0] != "Call"@[0]);
            assert("BrIf"@[0] != "Call"@[0]);
        },
        Op::CallIndirect { .. } => {},
        Op::Drop => {
            assert("Loop"@[0] != "Drop"@[0]);
            assert("Else"@[0] != "Drop"@[0]);
            assert("BrIf"@[0] != "Drop"@[0]);
            assert("Call"@[0] != "Drop"@[0]);
        },
        Op::Select => {
            assert("Return"@[0] != "Select"@[0]);
        },
        Op::LocalGet { .. } => {},
        Op::LocalSet => {
            assert("LocalGet"@[5] != "LocalSet"@[5]);
        },
        Op::LocalTee => {
            assert("LocalGet"@[5] != "LocalTee"@[5]);
            assert("LocalSet"@[5] != "LocalTee"@[5]);
        },
        Op::GlobalGet { .. } => {},
        Op::GlobalSet => {
            assert("GlobalGet"@[6] != "GlobalSet"@[6]);
        },
        Op::I32Load => {
            assert("BrTable"@[0] != "I32Load"@[0]);
        },
        Op::I64Load => {
            assert("BrTable"@[0] != "I64Load"@[0]);
            assert("I32Load"@[1] != "I64Load"@[1]);
        },
        Op::F32Load => {
            assert("BrTable"@[0] != "F32Load"@[0]);
            assert("I32Load"@[0] != "F32Load"@[0]);
            assert("I64Load"@[0] != "F32Load"@[0]);
        },
        Op::F64Load => {
            assert("BrTable"@[0] != "F64Load"@[0]);
            assert("I32Load"@[0] != "F64Load"@[0]);
            assert("I64Load"@[0] != "F64Load"@[0]);
            assert("F32Load"@[1] != "F64Load"@[1]);
        },
        Op::I32Load8S => {
            assert("GlobalGet"@[0] != "I32Load8S"@[0]);
            assert("GlobalSet"@[0] != "I32Load8S"@[0]);
        },
        Op::I32Load8U => {
            assert("GlobalGet"@[0] != "I32Load8U"@[0]);
            assert("GlobalSet"@[0] != "I32Load8U"@[0]);
            assert("I32Load8S"@[8] != "I32Load8U"@[8]);
        },
        Op::I32Load16S => {},
        Op::I32Load16U => {
            assert("I32Load16S"@[9] != "I32Load16U"@[9]);
        },
        Op::I64Load8S => {
            assert("GlobalGet"@[0] != "I64Load8S"@[0]);
            assert("GlobalSet"@[0] != "I64Load8S"@[0]);
            assert("I32Load8S"@[1] != "I64Load8S"@[1]);
            assert("I32Load8U"@[1] != "I64Load8S"@[1]);
        },
        Op::I64Load8U => {
            assert("GlobalGet"@[0] != "I64Load8U"@[0]);
            assert("GlobalSet"@[0] != "I64Load8U"@[0]);
            assert("I32Load8S"@[1] != "I64Load8U"@[1]);
            assert("I32Load8U"@[1] != "I64Load8U"@[1]);
            assert("I64Load8S"@[8] != "I64Load8U"@[8]);
        },
        Op::I64Load16S => {
            assert("I32Load16S"@[1] != "I64Load16S"@[1]);
            assert("I32Load16U"@[1] != "I64Load16S"@[1]);
        },
        Op::I64Load16U => {
            assert("I32Load16S"@[1] != "I64Load16U"@[1]);
            assert("I32Load16U"@[1] != "I64Load16U"@[1]);
            assert("I64Load16S"@[9] != "I64Load16U"@[9]);
        },
        Op::I64Load32S => {
            assert("I32Load16S"@[1] != "I64Load32S"@[1]);
            assert("I32Load16U"@[1] != "I64Load32S"@[1]);
            assert("I64Load16S"@[7] != "I64Load32S"@[7]);
            assert("I64Load16U"@[7] != "I64Load32S"@[7]);
        },
        Op::I64Load32U => {
            assert("I32Load16S"@[1] != "I64Load32U"@[1]);
            assert("I32Load16U"@[1] != "I64Load32U"@[1]);
            assert("I64Load16S"@[7] != "I64Load32U"@[7]);
            assert("I64Load16U"@[7] != "I64Load32U"@[7]);
            assert("I64Load32S"@[9] != "I64Load32U"@[9]);
        },
        Op::I32Store => {
            assert("LocalGet"@[0] != "I32Store"@[0]);
            assert("LocalSet"@[0] != "I32Store"@[0]);
            assert("LocalTee"@[0] != "I32Store"@[0]);
        },
        Op::I64Store => {
            assert("LocalGet"@[0] != "I64Store"@[0]);
            assert("LocalSet"@[0] != "I64Store"@[0]);
            assert("LocalTee"@[0] != "I64Store"@[0]);
            assert("I32Store"@[1] != "I64Store"@[1]);
        },
        Op::F32Store => {
            assert("LocalGet"@[0] != "F32Store"@[0]);
            assert("LocalSet"@[0] != "F32Store"@[0]);
            assert("LocalTee"@[0] != "F32Store"@[0]);
            assert("I32Store"@[0] != "F32Store"@[0]);
            assert("I64Store"@[0] != "F32Store"@[0]);
        },
        Op::F64Store => {
            assert("LocalGet"@[0] != "F64Store"@[0]);
            assert("LocalSet"@[0] != "F64Store"@[0]);
            assert("LocalTee"@[0] != "F64Store"@[0]);
            assert("I32Store"@[0] != "F64Store"@[0]);
            assert("I64Store"@[0] != "F64Store"@[0]);
            assert("F32Store"@[1] != "F64Store"@[1]);
        },
        Op::I32Store8 => {
            assert("GlobalGet"@[0] != "I32Store8"@[0]);
            assert("GlobalSet"@[0] != "I32Store8"@[0]);
            assert("I32Load8S"@[3] != "I32Store8"@[3]);
            assert("I32Load8U"@[3] != "I32Store8"@[3]);
            assert("I64Load8S"@[1] != "I32Store8"@[1]);
            assert("I64Load8U"@[1] != "I32Store8"@[1]);
        },
        Op::I32Store16 => {
            assert("I32Load16S"@[3] != "I32Store16"@[3]);
            assert("I32Load16U"@[3] != "I32Store16"@[3]);
            assert("I64Load16S"@[1] != "I32Store16"@[1]);
            assert("I64Load16U"@[1] != "I32Store16"@[1]);
            assert("I64Load32S"@[1] != "I32Store16"@[1]);
            assert("I64Load32U"@[1] != "I32Store16"@[1]);
        },
        Op::I64Store8 => {
            assert("GlobalGet"@[0] != "I64Store8"@[0]);
            assert("GlobalSet"@[0] != "I64Store8"@[0]);
            assert("I32Load8S"@[1] != "I64Store8"@[1]);
            assert("I32Load8U"@[1] != "I64Store8"@[1]);
            assert("I64Load8S"@[3] != "I64Store8"@[3]);
            assert("I64Load8U"@[3] != "I64Store8"@[3]);
            assert("I32Store8"@[1] != "I64Store8"@[1]);
        },
        Op::I64Store16 => {
            assert("I32Load16S"@[1] != "I64Store16"@[1]);
            assert("I32Load16U"@[1] != "I64Store16"@[1]);
            assert("I64Load16S"@[3] != "I64Store16"@[3]);
            assert("I64Load16U"@[3] != "I64Store16"@[3]);
            assert("I64Load32S"@[3] != "I64Store16"@[3]);
            assert("I64Load32U"@[3] != "I64Store16"@[3]);
            assert("I32Store16"@[1] != "I64Store16"@[1]);
        },
        Op::I64Store32 => {
            assert("I32Load16S"@[1] != "I64Store32"@[1]);
            assert("I32Load16U"@[1] != "I64Store32"@[1]);
            assert("I64Load16S"@[3] != "I64Store32"@[3]);
            assert("I64Load16U"@[3] != "I64Store32"@[3]);
            assert("I64Load32S"@[3] != "I64Store32"@[3]);
            assert("I64Load32U"@[3] != "I64Store32"@[3]);
            assert("I32Store16"@[1] != "I64Store32"@[1]);
            assert("I64Store16"@[8] != "I64Store32"@[8]);
        },
        Op::MemorySize => {
            assert("I32Load16S"@[0] != "MemorySize"@[0]);
            assert("I32Load16U"@[0] != "MemorySize"@[0]);
            assert("I64Load16S"@[0] != "MemorySize"@[0]);
            assert("I64Load16U"@[0] != "MemorySize"@[0]);
            assert("I64Load32S"@[0] != "MemorySize"@[0]);
            assert("I64Load32U"@[0] != "MemorySize"@[0]);
            assert("I32Store16"@[0] != "MemorySize"@[0]);
            assert("I64Store16"@[0] != "MemorySize"@[0]);
            assert("I64Store32"@[0] != "MemorySize"@[0]);
        },
        Op::MemoryGrow => {
            assert("I32Load16S"@[0] != "MemoryGrow"@[0]);
            assert("I32Load16U"@[0] != "MemoryGrow"@[0]);
            assert("I64Load16S"@[0] != "MemoryGrow"@[0]);
            assert("I64Load16U"@[0] != "MemoryGrow"@[0]);
            assert("I64Load32S"@[0] != "MemoryGrow"@[0]);
            assert("I64Load32U"@[0] != "MemoryGrow"@[0]);
            assert("I32Store16"@[0] != "MemoryGrow"@[0]);
            assert("I64Store16"@[0] != "MemoryGrow"@[0]);
            assert("I64Store32"@[0] != "MemoryGrow"@[0]);
            assert("MemorySize"@[6] != "MemoryGrow"@[6]);
        },
        Op::I32Const => {
            assert("LocalGet"@[0] != "I32Const"@[0]);
            assert("LocalSet"@[0] != "I32Const"@[0]);
            assert("LocalTee"@[0] != "I32Const"@[0]);
            assert("I32Store"@[3] != "I32Const"@[3]);
            assert("I64Store"@[1] != "I32Const"@[1]);
            assert("F32Store"@[0] != "I32Const"@[0]);
            assert("F64Store"@[0] != "I32Const"@[0]);
        },
        Op::I64Const => {
            assert("LocalGet"@[0] != "I64Const"@[0]);
            assert("LocalSet"@[0] != "I64Const"@[0]);
            assert("LocalTee"@[0] != "I64Const"@[0]);
            assert("I32Store"@[1] != "I64Const"@[1]);
            assert("I64Store"@[3] != "I64Const"@[3]);
            assert("F32Store"@[0] != "I64Const"@[0]);
            assert("F64Store"@[0] != "I64Const"@[0]);
            assert("I32Const"@[1] != "I64Const"@[1]);
        },
        Op::F32Const => {
            assert("LocalGet"@[0] != "F32Const"@[0]);
            assert("LocalSet"@[0] != "F32Const"@[0]);
            assert("LocalTee"@[0] != "F32Const"@[0]);
            assert("I32Store"@[0] != "F32Const"@[0]);
            assert("I64Store"@[0] != "F32Const"@[0]);
            assert("F32Store"@[3] != "F32Const"@[3]);
            assert("F64Store"@[1] != "F32Const"@[1]);
            assert("I32Const"@[0] != "F32Const"@[0]);
            assert("I64Const"@[0] != "F32Const"@[0]);
        },
        Op::F64Const => {
            assert("LocalGet"@[0] != "F64Const"@[0]);
            assert("LocalSet"@[0] != "F64Const"@[0]);
            assert("LocalTee"@[0] != "F64Const"@[0]);
            assert("I32Store"@[0] != "F64Const"@[0]);
            assert("I64Store"@[0] != "F64Const"@[0]);
            assert("F32Store"@[1] != "F64Const"@[1]);
            assert("F64Store"@[3] != "F64Const"@[3]);
            assert("I32Const"@[0] != "F64Const"@[0]);
            assert("I64Const"@[0] != "F64Const"@[0]);
            assert("F32Const"@[1] != "F64Const"@[1]);
        },
        Op::I32Eqz => {
            assert("Return"@[0] != "I32Eqz"@[0]);
            assert("Select"@[0] != "I32Eqz"@[0]);
        },
        Op::I32Eq => {
            assert("Block"@[0] != "I32Eq"@[0]);
        },
        Op::I32Ne => {
            assert("Block"@[0] != "I32Ne"@[0]);
            assert("I32Eq"@[3] != "I32Ne"@[3]);
        },
        Op::I32LtS => {
            assert("Return"@[0] != "I32LtS"@[0]);
            assert("Select"@[0] != "I32LtS"@[0]);
            assert("I32Eqz"@[3] != "I32LtS"@[3]);
        },
        Op::I32LtU => {
            assert("Return"@[0] != "I32LtU"@[0]);
            assert("Select"@[0] != "I32LtU"@[0]);
            assert("I32Eqz"@[3] != "I32LtU"@[3]);
            assert("I32LtS"@[5] != "I32LtU"@[5]);
        },
        Op::I32GtS => {
            assert("Return"@[0] != "I32GtS"@[0]);
            assert("Select"@[0] != "I32GtS"@[0]);
            assert("I32Eqz"@[3] != "I32GtS"@[3]);
            assert("I32LtS"@[3] != "I32GtS"@[3]);
            assert("I32LtU"@[3] != "I32GtS"@[3]);
        },
        Op::I32GtU => {
            assert("Return"@[0] != "I32GtU"@[0]);
            assert("Select"@[0] != "I32GtU"@[0]);
            assert("I32Eqz"@[3] != "I32GtU"@[3]);
            assert("I32LtS"@[3] != "I32GtU"@[3]);
            assert("I32LtU"@[3] != "I32GtU"@[3]);
            assert("I32GtS"@[5] != "I32GtU"@[5]);
        },
        Op::I32LeS => {
            assert("Return"@[0] != "I32LeS"@[0]);
            assert("Select"@[0] != "I32LeS"@[0]);
            assert("I32Eqz"@[3] != "I32LeS"@[3]);
            assert("I32LtS"@[4] != "I32LeS"@[4]);
            assert("I32LtU"@[4] != "I32LeS"@[4]);
            assert("I32GtS"@[3] != "I32LeS"@[3]);
            assert("I32GtU"@[3] != "I32LeS"@[3]);
        },
        Op::I32LeU => {
            assert("Return"@[0] != "I32LeU"@[0]);
            assert("Select"@[0] != "I32LeU"@[0]);
            assert("I32Eqz"@[3] != "I32LeU"@[3]);
            assert("I32LtS"@[4] != "I32LeU"@[4]);
            assert("I32LtU"@[4] != "I32LeU"@[4]);
            assert("I32GtS"@[3] != "I32LeU"@[3]);
            assert("I32GtU"@[3] != "I32LeU"@[3]);
            assert("I32LeS"@[5] != "I32LeU"@[5]);
        },
        Op::I32GeS => {
            assert("Return"@[0] != "I32GeS"@[0]);
            assert("Select"@[0] != "I32GeS"@[0]);
            assert("I32Eqz"@[3] != "I32GeS"@[3]);
            assert("I32LtS"@[3] != "I32GeS"@[3]);
            assert("I32LtU"@[3] != "I32GeS"@[3]);
            assert("I32GtS"@[4] != "I32GeS"@[4]);
            assert("I32GtU"@[4] != "I32GeS"@[4]);
            assert("I32LeS"@[3] != "I32GeS"@[3]);
            assert("I32LeU"@[3] != "I32GeS"@[3]);
        },
        Op::I32GeU => {
            assert("Return"@[0] != "I32GeU"@[0]);
            assert("Select"@[0] != "I32GeU"@[0]);
            assert("I32Eqz"@[3] != "I32GeU"@[3]);
            assert("I32LtS"@[3] != "I32GeU"@[3]);
            assert("I32LtU"@[3] != "I32GeU"@[3]);
            assert("I32GtS"@[4] != "I32GeU"@[4]);
            assert("I32GtU"@[4] != "I32GeU"@[4]);
            assert("I32LeS"@[3] != "I32GeU"@[3]);
            assert("I32LeU"@[3] != "I32GeU"@[3]);
            assert("I32GeS"@[5] != "I32GeU"@[5]);
        },
        Op::I64Eqz => {
            assert("Return"@[0] != "I64Eqz"@[0]);
            assert("Select"@[0] != "I64Eqz"@[0]);
            assert("I32Eqz"@[1] != "I64Eqz"@[1]);
            assert("I32LtS"@[1] != "I64Eqz"@[1]);
            assert("I32LtU"@[1] != "I64Eqz"@[1]);
            assert("I32GtS"@[1] != "I64Eqz"@[1]);
            assert("I32GtU"@[1] != "I64Eqz"@[1]);
            assert("I32LeS"@[1] != "I64Eqz"@[1]);
            assert("I32LeU"@[1] != "I64Eqz"@[1]);
            assert("I32GeS"@[1] != "I64Eqz"@[1]);
            assert("I32GeU"@[1] != "I64Eqz"@[1]);
        },
        Op::I64Eq => {
            assert("Block"@[0] != "I64Eq"@[0]);
            assert("I32Eq"@[1] != "I64Eq"@[1]);
            assert("I32Ne"@[1] != "I64Eq"@[1]);
        },
        Op::I64Ne => {
            assert("Block"@[0] != "I64Ne"@[0]);
            assert("I32Eq"@[1] != "I64Ne"@[1]);
            assert("I32Ne"@[1] != "I64Ne"@[1]);
            assert("I64Eq"@[3] != "I64Ne"@[3]);
        },
        Op::I64LtS => {
            assert("Return"@[0] != "I64LtS"@[0]);
            assert("Select"@[0] != "I64LtS"@[0]);
            assert("I32Eqz"@[1] != "I64LtS"@[1]);
            assert("I32LtS"@[1] != "I64LtS"@[1]);
            assert("I32LtU"@[1] != "I64LtS"@[1]);
            assert("I32GtS"@[1] != "I64LtS"@[1]);
            assert("I32GtU"@[1] != "I64LtS"@[1]);
            assert("I32LeS"@[1] != "I64LtS"@[1]);
            assert("I32LeU"@[1] != "I64LtS"@[1]);
            assert("I32GeS"@[1] != "I64LtS"@[1]);
            assert("I32GeU"@[1] != "I64LtS"@[1]);
            assert("I64Eqz"@[3] != "I64LtS"@[3]);
        },
        Op::I64LtU => {
            assert("Return"@[0] != "I64LtU"@[0]);
            assert("Select"@[0] != "I64LtU"@[0]);
            assert("I32Eqz"@[1] != "I64LtU"@[1]);
            assert("I32LtS"@[1] != "I64LtU"@[1]);
            assert("I32LtU"@[1] != "I64LtU"@[1]);
            assert("I32GtS"@[1] != "I64LtU"@[1]);
            assert("I32GtU"@[1] != "I64LtU"@[1]);
            assert("I32LeS"@[1] != "I64LtU"@[1]);
            assert("I32LeU"@[1] != "I64LtU"@[1]);
            assert("I32GeS"@[1] != "I64LtU"@[1]);
            assert("I32GeU"@[1] != "I64LtU"@[1]);
            assert("I64Eqz"@[3] != "I64LtU"@[3]);
            assert("I64LtS"@[5] != "I64LtU"@[5]);
        },
        Op::I64GtS => {
            assert("Return"@[0] != "I64GtS"@[0]);
            assert("Select"@[0] != "I64GtS"@[0]);
            assert("I32Eqz"@[1] != "I64GtS"@[1]);
            assert("I32LtS"@[1] != "I64GtS"@[1]);
            assert("I32LtU"@[1] != "I64GtS"@[1]);
            assert("I32GtS"@[1] != "I64GtS"@[1]);
            assert("I32GtU"@[1] != "I64GtS"@[1]);
            assert("I32LeS"@[1] != "I64GtS"@[1]);
            assert("I32LeU"@[1] != "I64GtS"@[1]);
            assert("I32GeS"@[1] != "I64GtS"@[1]);
            assert("I32GeU"@[1] != "I64GtS"@[1]);
            assert("I64Eqz"@[3] != "I64GtS"@[3]);
            assert("I64LtS"@[3] != "I64GtS"@[3]);
            assert("I64LtU"@[3] != "I64GtS"@[3]);
        },
        Op::I64GtU => {
            assert("Return"@[0] != "I64GtU"@[0]);
            assert("Select"@[0] != "I64GtU"@[0]);
            assert("I32Eqz"@[1] != "I64GtU"@[1]);
            assert("I32LtS"@[1] != "I64GtU"@[1]);
            assert("I32LtU"@[1] != "I64GtU"@[1]);
            assert("I32GtS"@[1] != "I64GtU"@[1]);
            assert("I32GtU"@[1] != "I64GtU"@[1]);
            assert("I32LeS"@[1] != "I64GtU"@[1]);
            assert("I32LeU"@[1] != "I64GtU"@[1]);
            assert("I32GeS"@[1] != "I64GtU"@[1]);
            assert("I32GeU"@[1] != "I64GtU"@[1]);
            assert("I64Eqz"@[3] != "I64GtU"@[3]);
            assert("I64LtS"@[3] != "I64GtU"@[3]);
            assert("I64LtU"@[3] != "I64GtU"@[3]);
            assert("I64GtS"@[5] != "I64GtU"@[5]);
        },
        Op::I64LeS => {
            assert("Return"@[0] != "I64LeS"@[0]);
            assert("Select"@[0] != "I64LeS"@[0]);
            assert("I32Eqz"@[1] != "I64LeS"@[1]);
            assert("I32LtS"@[1] != "I64LeS"@[1]);
            assert("I32LtU"@[1] != "I64LeS"@[1]);
            assert("I32GtS"@[1] != "I64LeS"@[1]);
            assert("I32GtU"@[1] != "I64LeS"@[1]);
            assert("I32LeS"@[1] != "I64LeS"@[1]);
            assert("I32LeU"@[1] != "I64LeS"@[1]);
            assert("I32GeS"@[1] != "I64LeS"@[1]);
            assert("I32GeU"@[1] != "I64LeS"@[1]);
            assert("I64Eqz"@[3] != "I64LeS"@[3]);
            assert("I64LtS"@[4] != "I64LeS"@[4]);
            assert("I64LtU"@[4] != "I64LeS"@[4]);
            assert("I64GtS"@[3] != "I64LeS"@[3]);
            assert("I64GtU"@[3] != "I64LeS"@[3]);
        },
        Op::I64LeU => {
            assert("Return"@[0] != "I64LeU"@[0]);
            assert("Select"@[0] != "I64LeU"@[0]);
            assert("I32Eqz"@[1] != "I64LeU"@[1]);
            assert("I32LtS"@[1] != "I64LeU"@[1]);
            assert("I32LtU"@[1] != "I64LeU"@[1]);
            assert("I32GtS"@[1] != "I64LeU"@[1]);
            assert("I32GtU"@[1] != "I64LeU"@[1]);
            assert("I32LeS"@[1] != "I64LeU"@[1]);
            assert("I32LeU"@[1] != "I64LeU"@[1]);
            assert("I32GeS"@[1] != "I64LeU"@[1]);
            assert("I32GeU"@[1] != "I64LeU"@[1]);
            assert("I64Eqz"@[3] != "I64LeU"@[3]);
            assert("I64LtS"@[4] != "I64LeU"@[4]);
            assert("I64LtU"@[4] != "I64LeU"@[4]);
            assert("I64GtS"@[3] != "I64LeU"@[3]);
            assert("I64GtU"@[3] != "I64LeU"@[3]);
            assert("I64LeS"@[5] != "I64LeU"@[5]);
        },
        Op::I64GeS => {
            assert("Return"@[0] != "I64GeS"@[0]);
            assert("Select"@[0] != "I64GeS"@[0]);
            assert("I32Eqz"@[1] != "I64GeS"@[1]);
            assert("I32LtS"@[1] != "I64GeS"@[1]);
            assert("I32LtU"@[1] != "I64GeS"@[1]);
            assert("I32GtS"@[1] != "I64GeS"@[1]);
            assert("I32GtU"@[1] != "I64GeS"@[1]);
            assert("I32LeS"@[1] != "I64GeS"@[1]);
            assert("I32LeU"@[1] != "I64GeS"@[1]);
            assert("I32GeS"@[1] != "I64GeS"@[1]);
            assert("I32GeU"@[1] != "I64GeS"@[1]);
            assert("I64Eqz"@[3] != "I64GeS"@[3]);
            assert("I64LtS"@[3] != "I64GeS"@[3]);
            assert("I64LtU"@[3] != "I64GeS"@[3]);
            assert("I64GtS"@[4] != "I64GeS"@[4]);
            assert("I64GtU"@[4] != "I64GeS"@[4]);
            assert("I64LeS"@[3] != "I64GeS"@[3]);
            assert("I64LeU"@[3] != "I64GeS"@[3]);
        },
        Op::I64GeU => {
            assert("Return"@[0] != "I64GeU"@[0]);
            assert("Select"@[0] != "I64GeU"@[0]);
            assert("I32Eqz"@[1] != "I64GeU"@[1]);
            assert("I32LtS"@[1] != "I64GeU"@[1]);
            assert("I32LtU"@[1] != "I64GeU"@[1]);
            assert("I32GtS"@[1] != "I64GeU"@[1]);
            assert("I32GtU"@[1] != "I64GeU"@[1]);
            assert("I32LeS"@[1] != "I64GeU"@[1]);
            assert("I32LeU"@[1] != "I64GeU"@[1]);
            assert("I32GeS"@[1] != "I64GeU"@[1]);
            assert("I32GeU"@[1] != "I64GeU"@[1]);
            assert("I64Eqz"@[3] != "I64GeU"@[3]);
            assert("I64LtS"@[3] != "I64GeU"@[3]);
            assert("I64LtU"@[3] != "I64GeU"@[3]);
            assert("I64GtS"@[4] != "I64GeU"@[4]);
            assert("I64GtU"@[4] != "I64GeU"@[4]);
            assert("I64LeS"@[3] != "I64GeU"@[3]);
            assert("I64LeU"@[3] != "I64GeU"@[3]);
            assert("I64GeS"@[5] != "I64GeU"@[5]);
        },
        Op::F32Eq => {
            assert("Block"@[0] != "F32Eq"@[0]);
            assert("I32Eq"@[0] != "F32Eq"@[0]);
            assert("I32Ne"@[0] != "F32Eq"@[0]);
            assert("I64Eq"@[0] != "F32Eq"@[0]);
            assert("I64Ne"@[0] != "F32Eq"@[0]);
        },
        Op::F32Ne => {
            assert("Block"@[0] != "F32Ne"@[0]);
            assert("I32Eq"@[0] != "F32Ne"@[0]);
            assert("I32Ne"@[0] != "F32Ne"@[0]);
            assert("I64Eq"@[0] != "F32Ne"@[0]);
            assert("I64Ne"@[0] != "F32Ne"@[0]);
            assert("F32Eq"@[3] != "F32Ne"@[3]);
        },
        Op::F32Lt => {
            assert("Block"@[0] != "F32Lt"@[0]);
            assert("I32Eq"@[0] != "F32Lt"@[0]);
            assert("I32Ne"@[0] != "F32Lt"@[0]);
            assert("I64Eq"@[0] != "F32Lt"@[0]);
            assert("I64Ne"@[0] != "F32Lt"@[0]);
            assert("F32Eq"@[3] != "F32Lt"@[3]);
            assert("F32Ne"@[3] != "F32Lt"@[3]);
        },
        Op::F32Gt => {
            assert("Block"@[0] != "F32Gt"@[0]);
            assert("I32Eq"@[0] != "F32Gt"@[0]);
            assert("I32Ne"@[0] != "F32Gt"@[0]);
            assert("I64Eq"@[0] != "F32Gt"@[0]);
            assert("I64Ne"@[0] != "F32Gt"@[0]);
            assert("F32Eq"@[3] != "F32Gt"@[3]);
            assert("F32Ne"@[3] != "F32Gt"@[3]);
            assert("F32Lt"@[3] != "F32Gt"@[3]);
        },
        Op::F32Le => {
            assert("Block"@[0] != "F32Le"@[0]);
            assert("I32Eq"@[0] != "F32Le"@[0]);
            assert("I32Ne"@[0] != "F32Le"@[0]);
            assert("I64Eq"@[0] != "F32Le"@[0]);
            assert("I64Ne"@[0] != "F32Le"@[0]);
            assert("F32Eq"@[3] != "F32Le"@[3]);
            assert("F32Ne"@[3] != "F32Le"@[3]);
            assert("F32Lt"@[4] != "F32Le"@[4]);
            assert("F32Gt"@[3] != "F32Le"@[3]);
        },
        Op::F32Ge => {
            assert("Block"@[0] != "F32Ge"@[0]);
            assert("I32Eq"@[0] != "F32Ge"@[0]);
            assert("I32Ne"@[0] != "F32Ge"@[0]);
            assert("I64Eq"@[0] != "F32Ge"@[0]);
            assert("I64Ne"@[0] != "F32Ge"@[0]);
            assert("F32Eq"@[3] != "F32Ge"@[3]);
            assert("F32Ne"@[3] != "F32Ge"@[3]);
            assert("F32Lt"@[3] != "F32Ge"@[3]);
            assert("F32Gt"@[4] != "F32Ge"@[4]);
            assert("F32Le"@[3] != "F32Ge"@[3]);
        },
        Op::F64Eq => {
            assert("Block"@[0] != "F64Eq"@[0]);
            assert("I32Eq"@[0] != "F64Eq"@[0]);
            assert("I32Ne"@[0] != "F64Eq"@[0]);
            assert("I64Eq"@[0] != "F64Eq"@[0]);
            assert("I64Ne"@[0] != "F64Eq"@[0]);
            assert("F32Eq"@[1] != "F64Eq"@[1]);
            assert("F32Ne"@[1] != "F64Eq"@[1]);
            assert("F32Lt"@[1] != "F64Eq"@[1]);
            assert("F32Gt"@[1] != "F64Eq"@[1]);
            assert("F32Le"@[1] != "F64Eq"@[1]);
            assert("F32Ge"@[1] != "F64Eq"@[1]);
        },
        Op::F64Ne => {
            assert("Block"@[0] != "F64Ne"@[0]);
            assert("I32Eq"@[0] != "F64Ne"@[0]);
            assert("I32Ne"@[0] != "F64Ne"@[0]);
            assert("I64Eq"@[0] != "F64Ne"@[0]);
            assert("I64Ne"@[0] != "F64Ne"@[0]);
            assert("F32Eq"@[1] != "F64Ne"@[1]);
            assert("F32Ne"@[1] != "F64Ne"@[1]);
            assert("F32Lt"@[1] != "F64Ne"@[1]);
            assert("F32Gt"@[1] != "F64Ne"@[1]);
            assert("F32Le"@[1] != "F64Ne"@[1]);
            assert("F32Ge"@[1] != "F64Ne"@[1]);
            assert("F64Eq"@[3] != "F64Ne"@[3]);
        },
        Op::F64Lt => {
            assert("Block"@[0] != "F64Lt"@[0]);
            assert("I32Eq"@[0] != "F64Lt"@[0]);
            assert("I32Ne"@[0] != "F64Lt"@[0]);
            assert("I64Eq"@[0] != "F64Lt"@[0]);
            assert("I64Ne"@[0] != "F64Lt"@[0]);
            assert("F32Eq"@[1] != "F64Lt"@[1]);
            assert("F32Ne"@[1] != "F64Lt"@[1]);
            assert("F32Lt"@[1] != "F64Lt"@[1]);
            assert("F32Gt"@[1] != "F64Lt"@[1]);
            assert("F32Le"@[1] != "F64Lt"@[1]);
            assert("F32Ge"@[1] != "F64Lt"@[1]);
            assert("F64Eq"@[3] != "F64Lt"@[3]);
            assert("F64Ne"@[3] != "F64Lt"@[3]);
        },
        Op::F64Gt => {
            assert("Block"@[0] != "F64Gt"@[0]);
            assert("I32Eq"@[0] != "F64Gt"@[0]);
            assert("I32Ne"@[0] != "F64Gt"@[0]);
            assert("I64Eq"@[0] != "F64Gt"@[0]);
            assert("I64Ne"@[0] != "F64Gt"@[0]);
            assert("F32Eq"@[1] != "F64Gt"@[1]);
            assert("F32Ne"@[1] != "F64Gt"@[1]);
            assert("F32Lt"@[1] != "F64Gt"@[1]);
            assert("F32Gt"@[1] != "F64Gt"@[1]);
            assert("F32Le"@[1] != "F64Gt"@[1]);
            assert("F32Ge"@[1] != "F64Gt"@[1]);
            assert("F64Eq"@[3] != "F64Gt"@[3]);
            assert("F64Ne"@[3] != "F64Gt"@[3]);
            assert("F64Lt"@[3] != "F64Gt"@[3]);
        },
        Op::F64Le => {
            assert("Block"@[0] != "F64Le"@[0]);
            assert("I32Eq"@[0] != "F64Le"@[0]);
            assert("I32Ne"@[0] != "F64Le"@[0]);
            assert("I64Eq"@[0] != "F64Le"@[0]);
            assert("I64Ne"@[0] != "F64Le"@[0]);
            assert("F32Eq"@[1] != "F64Le"@[1]);
            assert("F32Ne"@[1] != "F64Le"@[1]);
            assert("F32Lt"@[1] != "F64Le"@[1]);
            assert("F32Gt"@[1] != "F64Le"@[1]);
            assert("F32Le"@[1] != "F64Le"@[1]);
            assert("F32Ge"@[1] != "F64Le"@[1]);
            assert("F64Eq"@[3] != "F64Le"@[3]);
            assert("F64Ne"@[3] != "F64Le"@[3]);
            assert("F64Lt"@[4] != "F64Le"@[4]);
            assert("F64Gt"@[3] != "F64Le"@[3]);
        },
        Op::F64Ge => {
            assert("Block"@[0] != "F64Ge"@[0]);
            assert("I32Eq"@[0] != "F64Ge"@[0]);
            assert("I32Ne"@[0] != "F64Ge"@[0]);
            assert("I64Eq"@[0] != "F64Ge"@[0]);
            assert("I64Ne"@[0] != "F64Ge"@[0]);
            assert("F32Eq"@[1] != "F64Ge"@[1]);
            assert("F32Ne"@[1] != "F64Ge"@[1]);
            assert("F32Lt"@[1] != "F64Ge"@[1]);
            assert("F32Gt"@[1] != "F64Ge"@[1]);
            assert("F32Le"@[1] != "F64Ge"@[1]);
            assert("F32Ge"@[1] != "F64Ge"@[1]);
            assert("F64Eq"@[3] != "F64Ge"@[3]);
            assert("F64Ne"@[3] != "F64Ge"@[3]);
            assert("F64Lt"@[3] != "F64Ge"@[3]);
            assert("F64Gt"@[4] != "F64Ge"@[4]);
            assert("F64Le"@[3] != "F64Ge"@[3]);
        },
        Op::I32Clz => {
            assert("Return"@[0] != "I32Clz"@[0]);
            assert("Select"@[0] != "I32Clz"@[0]);
            assert("I32Eqz"@[3] != "I32Clz"@[3]);
            assert("I32LtS"@[3] != "I32Clz"@[3]);
            assert("I32LtU"@[3] != "I32Clz"@[3]);
            assert("I32GtS"@[3] != "I32Clz"@[3]);
            assert("I32GtU"@[3] != "I32Clz"@[3]);
            assert("I32LeS"@[3] != "I32Clz"@[3]);
            assert("I32LeU"@[3] != "I32Clz"@[3]);
            assert("I32GeS"@[3] != "I32Clz"@[3]);
            assert("I32GeU"@[3] != "I32Clz"@[3]);
            assert("I64Eqz"@[1] != "I32Clz"@[1]);
            assert("I64LtS"@[1] != "I32Clz"@[1]);
            assert("I64LtU"@[1] != "I32Clz"@[1]);
            assert("I64GtS"@[1] != "I32Clz"@[1]);
            assert("I64GtU"@[1] != "I32Clz"@[1]);
            assert("I64LeS"@[1] != "I32Clz"@[1]);
            assert("I64LeU"@[1] != "I32Clz"@[1]);
            assert("I64GeS"@[1] != "I32Clz"@[1]);
            assert("I64GeU"@[1] != "I32Clz"@[1]);
        },
        Op::I32Ctz => {
            assert("Return"@[0] != "I32Ctz"@[0]);
            assert("Select"@[0] != "I32Ctz"@[0]);
            assert("I32Eqz"@[3] != "I32Ctz"@[3]);
            assert("I32LtS"@[3] != "I32Ctz"@[3]);
            assert("I32LtU"@[3] != "I32Ctz"@[3]);
            assert("I32GtS"@[3] != "I32Ctz"@[3]);
            assert("I32GtU"@[3] != "I32Ctz"@[3]);
            assert("I32LeS"@[3] != "I32Ctz"@[3]);
            assert("I32LeU"@[3] != "I32Ctz"@[3]);
            assert("I32GeS"@[3] != "I32Ctz"@[3]);
            assert("I32GeU"@[3] != "I32Ctz"@[3]);
            assert("I64Eqz"@[1] != "I32Ctz"@[1]);
            assert("I64LtS"@[1] != "I32Ctz"@[1]);
            assert("I64LtU"@[1] != "I32Ctz"@[1]);
            assert("I64GtS"@[1] != "I32Ctz"@[1]);
            assert("I64GtU"@[1] != "I32Ctz"@[1]);
            assert("I64LeS"@[1] != "I32Ctz"@[1]);
            assert("I64LeU"@[1] != "I32Ctz"@[1]);
            assert("I64GeS"@[1] != "I32Ctz"@[1]);
            assert("I64GeU"@[1] != "I32Ctz"@[1]);
            assert("I32Clz"@[4] != "I32Ctz"@[4]);
        },
        Op::I32Popcnt => {
            assert("GlobalGet"@[0] != "I32Popcnt"@[0]);
            assert("GlobalSet"@[0] != "I32Popcnt"@[0]);
            assert("I32Load8S"@[3] != "I32Popcnt"@[3]);
            assert("I32Load8U"@[3] != "I32Popcnt"@[3]);
            assert("I64Load8S"@[1] != "I32Popcnt"@[1]);
            assert("I64Load8U"@[1] != "I32Popcnt"@[1]);
            assert("I32Store8"@[3] != "I32Popcnt"@[3]);
            assert("I64Store8"@[1] != "I32Popcnt"@[1]);
        },
        Op::I32Add => {
            assert("Return"@[0] != "I32Add"@[0]);
            assert("Select"@[0] != "I32Add"@[0]);
            assert("I32Eqz"@[3] != "I32Add"@[3]);
            assert("I32LtS"@[3] != "I32Add"@[3]);
            assert("I32LtU"@[3] != "I32Add"@[3]);
            assert("I32GtS"@[3] != "I32Add"@[3]);
            assert("I32GtU"@[3] != "I32Add"@[3]);
            assert("I32LeS"@[3] != "I32Add"@[3]);
            assert("I32LeU"@[3] != "I32Add"@[3]);
            assert("I32GeS"@[3] != "I32Add"@[3]);
            assert("I32GeU"@[3] != "I32Add"@[3]);
            assert("I64Eqz"@[1] != "I32Add"@[1]);
            assert("I64LtS"@[1] != "I32Add"@[1]);
            assert("I64LtU"@[1] != "I32Add"@[1]);
            assert("I64GtS"@[1] != "I32Add"@[1]);
            assert("I64GtU"@[1] != "I32Add"@[1]);
            assert("I64LeS"@[1] != "I32Add"@[1]);
            assert("I64LeU"@[1] != "I32Add"@[1]);
            assert("I64GeS"@[1] != "I32Add"@[1]);
            assert("I64GeU"@[1] != "I32Add"@[1]);
            assert("I32Clz"@[3] != "I32Add"@[3]);
            assert("I32Ctz"@[3] != "I32Add"@[3]);
        },
        Op::I32Sub => {
            assert("Return"@[0] != "I32Sub"@[0]);
            assert("Select"@[0] != "I32Sub"@[0]);
            assert("I32Eqz"@[3] != "I32Sub"@[3]);
            assert("I32LtS"@[3] != "I32Sub"@[3]);
            assert("I32LtU"@[3] != "I32Sub"@[3]);
            assert("I32GtS"@[3] != "I32Sub"@[3]);
            assert("I32GtU"@[3] != "I32Sub"@[3]);
            assert("I32LeS"@[3] != "I32Sub"@[3]);
            assert("I32LeU"@[3] != "I32Sub"@[3]);
            assert("I32GeS"@[3] != "I32Sub"@[3]);
            assert("I32GeU"@[3] != "I32Sub"@[3]);
            assert("I64Eqz"@[1] != "I32Sub"@[1]);
            assert("I64LtS"@[1] != "I32Sub"@[1]);
            assert("I64LtU"@[1] != "I32Sub"@[1]);
            assert("I64GtS"@[1] != "I32Sub"@[1]);
            assert("I64GtU"@[1] != "I32Sub"@[1]);
            assert("I64LeS"@[1] != "I32Sub"@[1]);
            assert("I64LeU"@[1] != "I32Sub"@[1]);
            assert("I64GeS"@[1] != "I32Sub"@[1]);
            assert("I64GeU"@[1] != "I32Sub"@[1]);
            assert("I32Clz"@[3] != "I32Sub"@[3]);
            assert("I32Ctz"@[3] != "I32Sub"@[3]);
            assert("I32Add"@[3] != "I32Sub"@[3]);
        },
        Op::I32Mul => {
            assert("Return"@[0] != "I32Mul"@[0]);
            assert("Select"@[0] != "I32Mul"@[0]);
            assert("I32Eqz"@[3] != "I32Mul"@[3]);
            assert("I32LtS"@[3] != "I32Mul"@[3]);
            assert("I32LtU"@[3] != "I32Mul"@[3]);
            assert("I32GtS"@[3] != "I32Mul"@[3]);
            assert("I32GtU"@[3] != "I32Mul"@[3]);
            assert("I32LeS"@[3] != "I32Mul"@[3]);
            assert("I32LeU"@[3] != "I32Mul"@[3]);
            assert("I32GeS"@[3] != "I32Mul"@[3]);
            assert("I32GeU"@[3] != "I32Mul"@[3]);
            assert("I64Eqz"@[1] != "I32Mul"@[1]);
            assert("I64LtS"@[1] != "I32Mul"@[1]);
            assert("I64LtU"@[1] != "I32Mul"@[1]);
            assert("I64GtS"@[1] != "I32Mul"@[1]);
            assert("I64GtU"@[1] != "I32Mul"@[1]);
            assert("I64LeS"@[1] != "I32Mul"@[1]);
            assert("I64LeU"@[1] != "I32Mul"@[1]);
            assert("I64GeS"@[1] != "I32Mul"@[1]);
            assert("I64GeU"@[1] != "I32Mul"@[1]);
            assert("I32Clz"@[3] != "I32Mul"@[3]);
            assert("I32Ctz"@[3] != "I32Mul"@[3]);
            assert("I32Add"@[3] != "I32Mul"@[3]);
            assert("I32Sub"@[3] != "I32Mul"@[3]);
        },
        Op::I32DivS => {
            assert("BrTable"@[0] != "I32DivS"@[0]);
            assert("I32Load"@[3] != "I32DivS"@[3]);
            assert("I64Load"@[1] != "I32DivS"@[1]);
            assert("F32Load"@[0] != "I32DivS"@[0]);
            assert("F64Load"@[0] != "I32DivS"@[0]);
        },
        Op::I32DivU => {
            assert("BrTable"@[0] != "I32DivU"@[0]);
            assert("I32Load"@[3] != "I32DivU"@[3]);
            assert("I64Load"@[1] != "I32DivU"@[1]);
            assert("F32Load"@[0] != "I32DivU"@[0]);
            assert("F64Load"@[0] != "I32DivU"@[0]);
            assert("I32DivS"@[6] != "I32DivU"@[6]);
        },
        Op::I32RemS => {
            assert("BrTable"@[0] != "I32RemS"@[0]);
            assert("I32Load"@[3] != "I32RemS"@[3]);
            assert("I64Load"@[1] != "I32RemS"@[1]);
            assert("F32Load"@[0] != "I32RemS"@[0]);
            assert("F64Load"@[0] != "I32RemS"@[0]);
            assert("I32DivS"@[3] != "I32RemS"@[3]);
            assert("I32DivU"@[3] != "I32RemS"@[3]);
        },
        Op::I32RemU => {
            assert("BrTable"@[0] != "I32RemU"@[0]);
            assert("I32Load"@[3] != "I32RemU"@[3]);
            assert("I64Load"@[1] != "I32RemU"@[1]);
            assert("F32Load"@[0] != "I32RemU"@[0]);
            assert("F64Load"@[0] != "I32RemU"@[0]);
            assert("I32DivS"@[3] != "I32RemU"@[3]);
            assert("I32DivU"@[3] != "I32RemU"@[3]);
            assert("I32RemS"@[6] != "I32RemU"@[6]);
        },
        Op::I32And => {
            assert("Return"@[0] != "I32And"@[0]);
            assert("Select"@[0] != "I32And"@[0]);
            assert("I32Eqz"@[3] != "I32And"@[3]);
            assert("I32LtS"@[3] != "I32And"@[3]);
            assert("I32LtU"@[3] != "I32And"@[3]);
            assert("I32GtS"@[3] != "I32And"@[3]);
            assert("I32GtU"@[3] != "I32And"@[3]);
            assert("I32LeS"@[3] != "I32And"@[3]);
            assert("I32LeU"@[3] != "I32And"@[3]);
            assert("I32GeS"@[3] != "I32And"@[3]);
            assert("I32GeU"@[3] != "I32And"@[3]);
            assert("I64Eqz"@[1] != "I32And"@[1]);
            assert("I64LtS"@[1] != "I32And"@[1]);
            assert("I64LtU"@[1] != "I32And"@[1]);
            assert("I64GtS"@[1] != "I32And"@[1]);
            assert("I64GtU"@[1] != "I32And"@[1]);
            assert("I64LeS"@[1] != "I32And"@[1]);
            assert("I64LeU"@[1] != "I32And"@[1]);
            assert("I64GeS"@[1] != "I32And"@[1]);
            assert("I64GeU"@[1] != "I32And"@[1]);
            assert("I32Clz"@[3] != "I32And"@[3]);
            assert("I32Ctz"@[3] != "I32And"@[3]);
            assert("I32Add"@[4] != "I32And"@[4]);
            assert("I32Sub"@[3] != "I32And"@[3]);
            assert("I32Mul"@[3] != "I32And"@[3]);
        },
        Op::I32Or => {
            assert("Block"@[0] != "I32Or"@[0]);
            assert("I32Eq"@[3] != "I32Or"@[3]);
            assert("I32Ne"@[3] != "I32Or"@[3]);
            assert("I64Eq"@[1] != "I32Or"@[1]);
            assert("I64Ne"@[1] != "I32Or"@[1]);
            assert("F32Eq"@[0] != "I32Or"@[0]);
            assert("F32Ne"@[0] != "I32Or"@[0]);
            assert("F32Lt"@[0] != "I32Or"@[0]);
            assert("F32Gt"@[0] != "I32Or"@[0]);
            assert("F32Le"@[0] != "I32Or"@[0]);
            assert("F32Ge"@[0] != "I32Or"@[0]);
            assert("F64Eq"@[0] != "I32Or"@[0]);
            assert("F64Ne"@[0] != "I32Or"@[0]);
            assert("F64Lt"@[0] != "I32Or"@[0]);
            assert("F64Gt"@[0] != "I32Or"@[0]);
            assert("F64Le"@[0] != "I32Or"@[0]);
            assert("F64Ge"@[0] != "I32Or"@[0]);
        },
        Op::I32Xor => {
            assert("Return"@[0] != "I32Xor"@[0]);
            assert("Select"@[0] != "I32Xor"@[0]);
            assert("I32Eqz"@[3] != "I32Xor"@[3]);
            assert("I32LtS"@[3] != "I32Xor"@[3]);
            assert("I32LtU"@[3] != "I32Xor"@[3]);
            assert("I32GtS"@[3] != "I32Xor"@[3]);
            assert("I32GtU"@[3] != "I32Xor"@[3]);
            assert("I32LeS"@[3] != "I32Xor"@[3]);
            assert("I32LeU"@[3] != "I32Xor"@[3]);
            assert("I32GeS"@[3] != "I32Xor"@[3]);
            assert("I32GeU"@[3] != "I32Xor"@[3]);
            assert("I64Eqz"@[1] != "I32Xor"@[1]);
            assert("I64LtS"@[1] != "I32Xor"@[1]);
            assert("I64LtU"@[1] != "I32Xor"@[1]);
            assert("I64GtS"@[1] != "I32Xor"@[1]);
            assert("I64GtU"@[1] != "I32Xor"@[1]);
            assert("I64LeS"@[1] != "I32Xor"@[1]);
            assert("I64LeU"@[1] != "I32Xor"@[1]);
            assert("I64GeS"@[1] != "I32Xor"@[1]);
            assert("I64GeU"@[1] != "I32Xor"@[1]);
            assert("I32Clz"@[3] != "I32Xor"@[3]);
            assert("I32Ctz"@[3] != "I32Xor"@[3]);
            assert("I32Add"@[3] != "I32Xor"@[3]);
            assert("I32Sub"@[3] != "I32Xor"@[3]);
            assert("I32Mul"@[3] != "I32Xor"@[3]);
            assert("I32And"@[3] != "I32Xor"@[3]);
        },
        Op::I32Shl => {
            assert("Return"@[0] != "I32Shl"@[0]);
            assert("Select"@[0] != "I32Shl"@[0]);
            assert("I32Eqz"@[3] != "I32Shl"@[3]);
            assert("I32LtS"@[3] != "I32Shl"@[3]);
            assert("I32LtU"@[3] != "I32Shl"@[3]);
            assert("I32GtS"@[3] != "I32Shl"@[3]);
            assert("I32GtU"@[3] != "I32Shl"@[3]);
            assert("I32LeS"@[3] != "I32Shl"@[3]);
            assert("I32LeU"@[3] != "I32Shl"@[3]);
            assert("I32GeS"@[3] != "I32Shl"@[3]);
            assert("I32GeU"@[3] != "I32Shl"@[3]);
            assert("I64Eqz"@[1] != "I32Shl"@[1]);
            assert("I64LtS"@[1] != "I32Shl"@[1]);
            assert("I64LtU"@[1] != "I32Shl"@[1]);
            assert("I64GtS"@[1] != "I32Shl"@[1]);
            assert("I64GtU"@[1] != "I32Shl"@[1]);
            assert("I64LeS"@[1] != "I32Shl"@[1]);
            assert("I64LeU"@[1] != "I32Shl"@[1]);
            assert("I64GeS"@[1] != "I32Shl"@[1]);
            assert("I64GeU"@[1] != "I32Shl"@[1]);
            assert("I32Clz"@[3] != "I32Shl"@[3]);
            assert("I32Ctz"@[3] != "I32Shl"@[3]);
            assert("I32Add"@[3] != "I32Shl"@[3]);
            assert("I32Sub"@[4] != "I32Shl"@[4]);
            assert("I32Mul"@[3] != "I32Shl"@[3]);
            assert("I32And"@[3] != "I32Shl"@[3]);
            assert("I32Xor"@[3] != "I32Shl"@[3]);
        },
        Op::I32ShrS => {
            assert("BrTable"@[0] != "I32ShrS"@[0]);
            assert("I32Load"@[3] != "I32ShrS"@[3]);
            assert("I64Load"@[1] != "I32ShrS"@[1]);
            assert("F32Load"@[0] != "I32ShrS"@[0]);
            assert("F64Load"@[0] != "I32ShrS"@[0]);
            assert("I32DivS"@[3] != "I32ShrS"@[3]);
            assert("I32DivU"@[3] != "I32ShrS"@[3]);
            assert("I32RemS"@[3] != "I32ShrS"@[3]);
            assert("I32RemU"@[3] != "I32ShrS"@[3]);
        },
        Op::I32ShrU => {
            assert("BrTable"@[0] != "I32ShrU"@[0]);
            assert("I32Load"@[3] != "I32ShrU"@[3]);
            assert("I64Load"@[1] != "I32ShrU"@[1]);
            assert("F32Load"@[0] != "I32ShrU"@[0]);
            assert("F64Load"@[0] != "I32ShrU"@[0]);
            assert("I32DivS"@[3] != "I32ShrU"@[3]);
            assert("I32DivU"@[3] != "I32ShrU"@[3]);
            assert("I32RemS"@[3] != "I32ShrU"@[3]);
            assert("I32RemU"@[3] != "I32ShrU"@[3]);
            assert("I32ShrS"@[6] != "I32ShrU"@[6]);
        },
        Op::I32Rotl => {
            assert("BrTable"@[0] != "I32Rotl"@[0]);
            assert("I32Load"@[3] != "I32Rotl"@[3]);
            assert("I64Load"@[1] != "I32Rotl"@[1]);
            assert("F32Load"@[0] != "I32Rotl"@[0]);
            assert("F64Load"@[0] != "I32Rotl"@[0]);
            assert("I32DivS"@[3] != "I32Rotl"@[3]);
            assert("I32DivU"@[3] != "I32Rotl"@[3]);
            assert("I32RemS"@[4] != "I32Rotl"@[4]);
            assert("I32RemU"@[4] != "I32Rotl"@[4]);
            assert("I32ShrS"@[3] != "I32Rotl"@[3]);
            assert("I32ShrU"@[3] != "I32Rotl"@[3]);
        },
        Op::I32Rotr => {
            assert("BrTable"@[0] != "I32Rotr"@[0]);
            assert("I32Load"@[3] != "I32Rotr"@[3]);
            assert("I64Load"@[1] != "I32Rotr"@[1]);
            assert("F32Load"@[0] != "I32Rotr"@[0]);
            assert("F64Load"@[0] != "I32Rotr"@[0]);
            assert("I32DivS"@[3] != "I32Rotr"@[3]);
            assert("I32DivU"@[3] != "I32Rotr"@[3]);
            assert("I32RemS"@[4] != "I32Rotr"@[4]);
            assert("I32RemU"@[4] != "I32Rotr"@[4]);
            assert("I32ShrS"@[3] != "I32Rotr"@[3]);
            assert("I32ShrU"@[3] != "I32Rotr"@[3]);
            assert("I32Rotl"@[6] != "I32Rotr"@[6]);
        },
        Op::I64Clz => {
            assert("Return"@[0] != "I64Clz"@[0]);
            assert("Select"@[0] != "I64Clz"@[0]);
            assert("I32Eqz"@[1] != "I64Clz"@[1]);
            assert("I32LtS"@[1] != "I64Clz"@[1]);
            assert("I32LtU"@[1] != "I64Clz"@[1]);
            assert("I32GtS"@[1] != "I64Clz"@[1]);
            assert("I32GtU"@[1] != "I64Clz"@[1]);
            assert("I32LeS"@[1] != "I64Clz"@[1]);
            assert("I32LeU"@[1] != "I64Clz"@[1]);
            assert("I32GeS"@[1] != "I64Clz"@[1]);
            assert("I32GeU"@[1] != "I64Clz"@[1]);
            assert("I64Eqz"@[3] != "I64Clz"@[3]);
            assert("I64LtS"@[3] != "I64Clz"@[3]);
            assert("I64LtU"@[3] != "I64Clz"@[3]);
            assert("I64GtS"@[3] != "I64Clz"@[3]);
            assert("I64GtU"@[3] != "I64Clz"@[3]);
            assert("I64LeS"@[3] != "I64Clz"@[3]);
            assert("I64LeU"@[3] != "I64Clz"@[3]);
            assert("I64GeS"@[3] != "I64Clz"@[3]);
            assert("I64GeU"@[3] != "I64Clz"@[3]);
            assert("I32Clz"@[1] != "I64Clz"@[1]);
            assert("I32Ctz"@[1] != "I64Clz"@[1]);
            assert("I32Add"@[1] != "I64Clz"@[1]);
            assert("I32Sub"@[1] != "I64Clz"@[1]);
            assert("I32Mul"@[1] != "I64Clz"@[1]);
            assert("I32And"@[1] != "I64Clz"@[1]);
            assert("I32Xor"@[1] != "I64Clz"@[1]);
            assert("I32Shl"@[1] != "I64Clz"@[1]);
        },
        Op::I64Ctz => {
            assert("Return"@[0] != "I64Ctz"@[0]);
            assert("Select"@[0] != "I64Ctz"@[0]);
            assert("I32Eqz"@[1] != "I64Ctz"@[1]);
            assert("I32LtS"@[1] != "I64Ctz"@[1]);
            assert("I32LtU"@[1] != "I64Ctz"@[1]);
            assert("I32GtS"@[1] != "I64Ctz"@[1]);
            assert("I32GtU"@[1] != "I64Ctz"@[1]);
            assert("I32LeS"@[1] != "I64Ctz"@[1]);
            assert("I32LeU"@[1] != "I64Ctz"@[1]);
            assert("I32GeS"@[1] != "I64Ctz"@[1]);
            assert("I32GeU"@[1] != "I64Ctz"@[1]);
            assert("I64Eqz"@[3] != "I64Ctz"@[3]);
            assert("I64LtS"@[3] != "I64Ctz"@[3]);
            assert("I64LtU"@[3] != "I64Ctz"@[3]);
            assert("I64GtS"@[3] != "I64Ctz"@[3]);
            assert("I64GtU"@[3] != "I64Ctz"@[3]);
            assert("I64LeS"@[3] != "I64Ctz"@[3]);
            assert("I64LeU"@[3] != "I64Ctz"@[3]);
            assert("I64GeS"@[3] != "I64Ctz"@[3]);
            assert("I64GeU"@[3] != "I64Ctz"@[3]);
            assert("I32Clz"@[1] != "I64Ctz"@[1]);
            assert("I32Ctz"@[1] != "I64Ctz"@[1]);
            assert("I32Add"@[1] != "I64Ctz"@[1]);
            assert("I32Sub"@[1] != "I64Ctz"@[1]);
            assert("I32Mul"@[1] != "I64Ctz"@[1]);
            assert("I32And"@[1] != "I64Ctz"@[1]);
            assert("I32Xor"@[1] != "I64Ctz"@[1]);
            assert("I32Shl"@[1] != "I64Ctz"@[1]);
            assert("I64Clz"@[4] != "I64Ctz"@[4]);
        },
        Op::I64Popcnt => {
            assert("GlobalGet"@[0] != "I64Popcnt"@[0]);
            assert("GlobalSet"@[0] != "I64Popcnt"@[0]);
            assert("I32Load8S"@[1] != "I64Popcnt"@[1]);
            assert("I32Load8U"@[1] != "I64Popcnt"@[1]);
            assert("I64Load8S"@[3] != "I64Popcnt"@[3]);
            assert("I64Load8U"@[3] != "I64Popcnt"@[3]);
            assert("I32Store8"@[1] != "I64Popcnt"@[1]);
            assert("I64Store8"@[3] != "I64Popcnt"@[3]);
            assert("I32Popcnt"@[1] != "I64Popcnt"@[1]);
        },
        Op::I64Add => {
            assert("Return"@[0] != "I64Add"@[0]);
            assert("Select"@[0] != "I64Add"@[0]);
            assert("I32Eqz"@[1] != "I64Add"@[1]);
            assert("I32LtS"@[1] != "I64Add"@[1]);
            assert("I32LtU"@[1] != "I64Add"@[1]);
            assert("I32GtS"@[1] != "I64Add"@[1]);
            assert("I32GtU"@[1] != "I64Add"@[1]);
            assert("I32LeS"@[1] != "I64Add"@[1]);
            assert("I32LeU"@[1] != "I64Add"@[1]);
            assert("I32GeS"@[1] != "I64Add"@[1]);
            assert("I32GeU"@[1] != "I64Add"@[1]);
            assert("I64Eqz"@[3] != "I64Add"@[3]);
            assert("I64LtS"@[3] != "I64Add"@[3]);
            assert("I64LtU"@[3] != "I64Add"@[3]);
            assert("I64GtS"@[3] != "I64Add"@[3]);
            assert("I64GtU"@[3] != "I64Add"@[3]);
            assert("I64LeS"@[3] != "I64Add"@[3]);
            assert("I64LeU"@[3] != "I64Add"@[3]);
            assert("I64GeS"@[3] != "I64Add"@[3]);
            assert("I64GeU"@[3] != "I64Add"@[3]);
            assert("I32Clz"@[1] != "I64Add"@[1]);
            assert("I32Ctz"@[1] != "I64Add"@[1]);
            assert("I32Add"@[1] != "I64Add"@[1]);
            assert("I32Sub"@[1] != "I64Add"@[1]);
            assert("I32Mul"@[1] != "I64Add"@[1]);
            assert("I32And"@[1] != "I64Add"@[1]);
            assert("I32Xor"@[1] != "I64Add"@[1]);
            assert("I32Shl"@[1] != "I64Add"@[1]);
            assert("I64Clz"@[3] != "I64Add"@[3]);
            assert("I64Ctz"@[3] != "I64Add"@[3]);
        },
        Op::I64Sub => {
            assert("Return"@[0] != "I64Sub"@[0]);
            assert("Select"@[0] != "I64Sub"@[0]);
            assert("I32Eqz"@[1] != "I64Sub"@[1]);
            assert("I32LtS"@[1] != "I64Sub"@[1]);
            assert("I32LtU"@[1] != "I64Sub"@[1]);
            assert("I32GtS"@[1] != "I64Sub"@[1]);
            assert("I32GtU"@[1] != "I64Sub"@[1]);
            assert("I32LeS"@[1] != "I64Sub"@[1]);
            assert("I32LeU"@[1] != "I64Sub"@[1]);
            assert("I32GeS"@[1] != "I64Sub"@[1]);
            assert("I32GeU"@[1] != "I64Sub"@[1]);
            assert("I64Eqz"@[3] != "I64Sub"@[3]);
            assert("I64LtS"@[3] != "I64Sub"@[3]);
            assert("I64LtU"@[3] != "I64Sub"@[3]);
            assert("I64GtS"@[3] != "I64Sub"@[3]);
            assert("I64GtU"@[3] != "I64Sub"@[3]);
            assert("I64LeS"@[3] != "I64Sub"@[3]);
            assert("I64LeU"@[3] != "I64Sub"@[3]);
            assert("I64GeS"@[3] != "I64Sub"@[3]);
            assert("I64GeU"@[3] != "I64Sub"@[3]);
            assert("I32Clz"@[1] != "I64Sub"@[1]);
            assert("I32Ctz"@[1] != "I64Sub"@[1]);
            assert("I32Add"@[1] != "I64Sub"@[1]);
            assert("I32Sub"@[1] != "I64Sub"@[1]);
            assert("I32Mul"@[1] != "I64Sub"@[1]);
            assert("I32And"@[1] != "I64Sub"@[1]);
            assert("I32Xor"@[1] != "I64Sub"@[1]);
            assert("I32Shl"@[1] != "I64Sub"@[1]);
            assert("I64Clz"@[3] != "I64Sub"@[3]);
            assert("I64Ctz"@[3] != "I64Sub"@[3]);
            assert("I64Add"@[3] != "I64Sub"@[3]);
        },
        Op::I64Mul => {
            assert("Return"@[0] != "I64Mul"@[0]);
            assert("Select"@[0] != "I64Mul"@[0]);
            assert("I32Eqz"@[1] != "I64Mul"@[1]);
            assert("I32LtS"@[1] != "I64Mul"@[1]);
            assert("I32LtU"@[1] != "I64Mul"@[1]);
            assert("I32GtS"@[1] != "I64Mul"@[1]);
            assert("I32GtU"@[1] != "I64Mul"@[1]);
            assert("I32LeS"@[1] != "I64Mul"@[1]);
            assert("I32LeU"@[1] != "I64Mul"@[1]);
            assert("I32GeS"@[1] != "I64Mul"@[1]);
            assert("I32GeU"@[1] != "I64Mul"@[1]);
            assert("I64Eqz"@[3] != "I64Mul"@[3]);
            assert("I64LtS"@[3] != "I64Mul"@[3]);
            assert("I64LtU"@[3] != "I64Mul"@[3]);
            assert("I64GtS"@[3] != "I64Mul"@[3]);
            assert("I64GtU"@[3] != "I64Mul"@[3]);
            assert("I64LeS"@[3] != "I64Mul"@[3]);
            assert("I64LeU"@[3] != "I64Mul"@[3]);
            assert("I64GeS"@[3] != "I64Mul"@[3]);
            assert("I64GeU"@[3] != "I64Mul"@[3]);
            assert("I32Clz"@[1] != "I64Mul"@[1]);
            assert("I32Ctz"@[1] != "I64Mul"@[1]);
            assert("I32Add"@[1] != "I64Mul"@[1]);
            assert("I32Sub"@[1] != "I64Mul"@[1]);
            assert("I32Mul"@[1] != "I64Mul"@[1]);
            assert("I32And"@[1] != "I64Mul"@[1]);
            assert("I32Xor"@[1] != "I64Mul"@[1]);
            assert("I32Shl"@[1] != "I64Mul"@[1]);
            assert("I64Clz"@[3] != "I64Mul"@[3]);
            assert("I64Ctz"@[3] != "I64Mul"@[3]);
            assert("I64Add"@[3] != "I64Mul"@[3]);
            assert("I64Sub"@[3] != "I64Mul"@[3]);
        },
        Op::I64DivS => {
            assert("BrTable"@[0] != "I64DivS"@[0]);
            assert("I32Load"@[1] != "I64DivS"@[1]);
            assert("I64Load"@[3] != "I64DivS"@[3]);
            assert("F32Load"@[0] != "I64DivS"@[0]);
            assert("F64Load"@[0] != "I64DivS"@[0]);
            assert("I32DivS"@[1] != "I64DivS"@[1]);
            assert("I32DivU"@[1] != "I64DivS"@[1]);
            assert("I32RemS"@[1] != "I64DivS"@[1]);
            assert("I32RemU"@[1] != "I64DivS"@[1]);
            assert("I32ShrS"@[1] != "I64DivS"@[1]);
            assert("I32ShrU"@[1] != "I64DivS"@[1]);
            assert("I32Rotl"@[1] != "I64DivS"@[1]);
            assert("I32Rotr"@[1] != "I64DivS"@[1]);
        },
        Op::I64DivU => {
            assert("BrTable"@[0] != "I64DivU"@[0]);
            assert("I32Load"@[1] != "I64DivU"@[1]);
            assert("I64Load"@[3] != "I64DivU"@[3]);
            assert("F32Load"@[0] != "I64DivU"@[0]);
            assert("F64Load"@[0] != "I64DivU"@[0]);
            assert("I32DivS"@[1] != "I64DivU"@[1]);
            assert("I32DivU"@[1] != "I64DivU"@[1]);
            assert("I32RemS"@[1] != "I64DivU"@[1]);
            assert("I32RemU"@[1] != "I64DivU"@[1]);
            assert("I32ShrS"@[1] != "I64DivU"@[1]);
            assert("I32ShrU"@[1] != "I64DivU"@[1]);
            assert("I32Rotl"@[1] != "I64DivU"@[1]);
            assert("I32Rotr"@[1] != "I64DivU"@[1]);
            assert("I64DivS"@[6] != "I64DivU"@[6]);
        },
        Op::I64RemS => {
            assert("BrTable"@[0] != "I64RemS"@[0]);
            assert("I32Load"@[1] != "I64RemS"@[1]);
            assert("I64Load"@[3] != "I64RemS"@[3]);
            assert("F32Load"@[0] != "I64RemS"@[0]);
            assert("F64Load"@[0] != "I64RemS"@[0]);
            assert("I32DivS"@[1] != "I64RemS"@[1]);
            assert("I32DivU"@[1] != "I64RemS"@[1]);
            assert("I32RemS"@[1] != "I64RemS"@[1]);
            assert("I32RemU"@[1] != "I64RemS"@[1]);
            assert("I32ShrS"@[1] != "I64RemS"@[1]);
            assert("I32ShrU"@[1] != "I64RemS"@[1]);
            assert("I32Rotl"@[1] != "I64RemS"@[1]);
            assert("I32Rotr"@[1] != "I64RemS"@[1]);
            assert("I64DivS"@[3] != "I64RemS"@[3]);
            assert("I64DivU"@[3] != "I64RemS"@[3]);
        },
        Op::I64RemU => {
            assert("BrTable"@[0] != "I64RemU"@[0]);
            assert("I32Load"@[1] != "I64RemU"@[1]);
            assert("I64Load"@[3] != "I64RemU"@[3]);
            assert("F32Load"@[0] != "I64RemU"@[0]);
            assert("F64Load"@[0] != "I64RemU"@[0]);
            assert("I32DivS"@[1] != "I64RemU"@[1]);
            assert("I32DivU"@[1] != "I64RemU"@[1]);
            assert("I32RemS"@[1] != "I64RemU"@[1]);
            assert("I32RemU"@[1] != "I64RemU"@[1]);
            assert("I32ShrS"@[1] != "I64RemU"@[1]);
            assert("I32ShrU"@[1] != "I64RemU"@[1]);
            assert("I32Rotl"@[1] != "I64RemU"@[1]);
            assert("I32Rotr"@[1] != "I64RemU"@[1]);
            assert("I64DivS"@[3] != "I64RemU"@[3]);
            assert("I64DivU"@[3] != "I64RemU"@[3]);
            assert("I64RemS"@[6] != "I64RemU"@[6]);
        },
        Op::I64And => {
            assert("Return"@[0] != "I64And"@[0]);
            assert("Select"@[0] != "I64And"@[0]);
            assert("I32Eqz"@[1] != "I64And"@[1]);
            assert("I32LtS"@[1] != "I64And"@[1]);
            assert("I32LtU"@[1] != "I64And"@[1]);
            assert("I32GtS"@[1] != "I64And"@[1]);
            assert("I32GtU"@[1] != "I64And"@[1]);
            assert("I32LeS"@[1] != "I64And"@[1]);
            assert("I32LeU"@[1] != "I64And"@[1]);
            assert("I32GeS"@[1] != "I64And"@[1]);
            assert("I32GeU"@[1] != "I64And"@[1]);
            assert("I64Eqz"@[3] != "I64And"@[3]);
            assert("I64LtS"@[3] != "I64And"@[3]);
            assert("I64LtU"@[3] != "I64And"@[3]);
            assert("I64GtS"@[3] != "I64And"@[3]);
            assert("I64GtU"@[3] != "I64And"@[3]);
            assert("I64LeS"@[3] != "I64And"@[3]);
            assert("I64LeU"@[3] != "I64And"@[3]);
            assert("I64GeS"@[3] != "I64And"@[3]);
            assert("I64GeU"@[3] != "I64And"@[3]);
            assert("I32Clz"@[1] != "I64And"@[1]);
            assert("I32Ctz"@[1] != "I64And"@[1]);
            assert("I32Add"@[1] != "I64And"@[1]);
            assert("I32Sub"@[1] != "I64And"@[1]);
            assert("I32Mul"@[1] != "I64And"@[1]);
            assert("I32And"@[1] != "I64And"@[1]);
            assert("I32Xor"@[1] != "I64And"@[1]);
            assert("I32Shl"@[1] != "I64And"@[1]);
            assert("I64Clz"@[3] != "I64And"@[3]);
            assert("I64Ctz"@[3] != "I64And"@[3]);
            assert("I64Add"@[4] != "I64And"@[4]);
            assert("I64Sub"@[3] != "I64And"@[3]);
            assert("I64Mul"@[3] != "I64And"@[3]);
        },
        Op::I64Or => {
            assert("Block"@[0] != "I64Or"@[0]);
            assert("I32Eq"@[1] != "I64Or"@[1]);
            assert("I32Ne"@[1] != "I64Or"@[1]);
            assert("I64Eq"@[3] != "I64Or"@[3]);
            assert("I64Ne"@[3] != "I64Or"@[3]);
            assert("F32Eq"@[0] != "I64Or"@[0]);
            assert("F32Ne"@[0] != "I64Or"@[0]);
            assert("F32Lt"@[0] != "I64Or"@[0]);
            assert("F32Gt"@[0] != "I64Or"@[0]);
            assert("F32Le"@[0] != "I64Or"@[0]);
            assert("F32Ge"@[0] != "I64Or"@[0]);
            assert("F64Eq"@[0] != "I64Or"@[0]);
            assert("F64Ne"@[0] != "I64Or"@[0]);
            assert("F64Lt"@[0] != "I64Or"@[0]);
            assert("F64Gt"@[0] != "I64Or"@[0]);
            assert("F64Le"@[0] != "I64Or"@[0]);
            assert("F64Ge"@[0] != "I64Or"@[0]);
            assert("I32Or"@[1] != "I64Or"@[1]);
        },
        Op::I64Xor => {
            assert("Return"@[0] != "I64Xor"@[0]);
            assert("Select"@[0] != "I64Xor"@[0]);
            assert("I32Eqz"@[1] != "I64Xor"@[1]);
            assert("I32LtS"@[1] != "I64Xor"@[1]);
            assert("I32LtU"@[1] != "I64Xor"@[1]);
            assert("I32GtS"@[1] != "I64Xor"@[1]);
            assert("I32GtU"@[1] != "I64Xor"@[1]);
            assert("I32LeS"@[1] != "I64Xor"@[1]);
            assert("I32LeU"@[1] != "I64Xor"@[1]);
            assert("I32GeS"@[1] != "I64Xor"@[1]);
            assert("I32GeU"@[1] != "I64Xor"@[1]);
            assert("I64Eqz"@[3] != "I64Xor"@[3]);
            assert("I64LtS"@[3] != "I64Xor"@[3]);
            assert("I64LtU"@[3] != "I64Xor"@[3]);
            assert("I64GtS"@[3] != "I64Xor"@[3]);
            assert("I64GtU"@[3] != "I64Xor"@[3]);
            assert("I64LeS"@[3] != "I64Xor"@[3]);
            assert("I64LeU"@[3] != "I64Xor"@[3]);
            assert("I64GeS"@[3] != "I64Xor"@[3]);
            assert("I64GeU"@[3] != "I64Xor"@[3]);
            assert("I32Clz"@[1] != "I64Xor"@[1]);
            assert("I32Ctz"@[1] != "I64Xor"@[1]);
            assert("I32Add"@[1] != "I64Xor"@[1]);
            assert("I32Sub"@[1] != "I64Xor"@[1]);
            assert("I32Mul"@[1] != "I64Xor"@[1]);
            assert("I32And"@[1] != "I64Xor"@[1]);
            assert("I32Xor"@[1] != "I64Xor"@[1]);
            assert("I32Shl"@[1] != "I64Xor"@[1]);
            assert("I64Clz"@[3] != "I64Xor"@[3]);
            assert("I64Ctz"@[3] != "I64Xor"@[3]);
            assert("I64Add"@[3] != "I64Xor"@[3]);
            assert("I64Sub"@[3] != "I64Xor"@[3]);
            assert("I64Mul"@[3] != "I64Xor"@[3]);
            assert("I64And"@[3] != "I64Xor"@[3]);
        },
        Op::I64Shl => {
            assert("Return"@[0] != "I64Shl"@[0]);
            assert("Select"@[0] != "I64Shl"@[0]);
            assert("I32Eqz"@[1] != "I64Shl"@[1]);
            assert("I32LtS"@[1] != "I64Shl"@[1]);
            assert("I32LtU"@[1] != "I64Shl"@[1]);
            assert("I32GtS"@[1] != "I64Shl"@[1]);
            assert("I32GtU"@[1] != "I64Shl"@[1]);
            assert("I32LeS"@[1] != "I64Shl"@[1]);
            assert("I32LeU"@[1] != "I64Shl"@[1]);
            assert("I32GeS"@[1] != "I64Shl"@[1]);
            assert("I32GeU"@[1] != "I64Shl"@[1]);
            assert("I64Eqz"@[3] != "I64Shl"@[3]);
            assert("I64LtS"@[3] != "I64Shl"@[3]);
            assert("I64LtU"@[3] != "I64Shl"@[3]);
            assert("I64GtS"@[3] != "I64Shl"@[3]);
            assert("I64GtU"@[3] != "I64Shl"@[3]);
            assert("I64LeS"@[3] != "I64Shl"@[3]);
            assert("I64LeU"@[3] != "I64Shl"@[3]);
            assert("I64GeS"@[3] != "I64Shl"@[3]);
            assert("I64GeU"@[3] != "I64Shl"@[3]);
            assert("I32Clz"@[1] != "I64Shl"@[1]);
            assert("I32Ctz"@[1] != "I64Shl"@[1]);
            assert("I32Add"@[1] != "I64Shl"@[1]);
            assert("I32Sub"@[1] != "I64Shl"@[1]);
            assert("I32Mul"@[1] != "I64Shl"@[1]);
            assert("I32And"@[1] != "I64Shl"@[1]);
            assert("I32Xor"@[1] != "I64Shl"@[1]);
            assert("I32Shl"@[1] != "I64Shl"@[1]);
            assert("I64Clz"@[3] != "I64Shl"@[3]);
            assert("I64Ctz"@[3] != "I64Shl"@[3]);
            assert("I64Add"@[3] != "I64Shl"@[3]);
            assert("I64Sub"@[4] != "I64Shl"@[4]);
            assert("I64Mul"@[3] != "I64Shl"@[3]);
            assert("I64And"@[3] != "I64Shl"@[3]);
            assert("I64Xor"@[3] != "I64Shl"@[3]);
        },
        Op::I64ShrS => {
            assert("BrTable"@[0] != "I64ShrS"@[0]);
            assert("I32Load"@[1] != "I64ShrS"@[1]);
            assert("I64Load"@[3] != "I64ShrS"@[3]);
            assert("F32Load"@[0] != "I64ShrS"@[0]);
            assert("F64Load"@[0] != "I64ShrS"@[0]);
            assert("I32DivS"@[1] != "I64ShrS"@[1]);
            assert("I32DivU"@[1] != "I64ShrS"@[1]);
            assert("I32RemS"@[1] != "I64ShrS"@[1]);
            assert("I32RemU"@[1] != "I64ShrS"@[1]);
            assert("I32ShrS"@[1] != "I64ShrS"@[1]);
            assert("I32ShrU"@[1] != "I64ShrS"@[1]);
            assert("I32Rotl"@[1] != "I64ShrS"@[1]);
            assert("I32Rotr"@[1] != "I64ShrS"@[1]);
            assert("I64DivS"@[3] != "I64ShrS"@[3]);
            assert("I64DivU"@[3] != "I64ShrS"@[3]);
            assert("I64RemS"@[3] != "I64ShrS"@[3]);
            assert("I64RemU"@[3] != "I64ShrS"@[3]);
        },
        Op::I64ShrU => {
            assert("BrTable"@[0] != "I64ShrU"@[0]);
            assert("I32Load"@[1] != "I64ShrU"@[1]);
            assert("I64Load"@[3] != "I64ShrU"@[3]);
            assert("F32Load"@[0] != "I64ShrU"@[0]);
            assert("F64Load"@[0] != "I64ShrU"@[0]);
            assert("I32DivS"@[1] != "I64ShrU"@[1]);
            assert("I32DivU"@[1] != "I64ShrU"@[1]);
            assert("I32RemS"@[1] != "I64ShrU"@[1]);
            assert("I32RemU"@[1] != "I64ShrU"@[1]);
            assert("I32ShrS"@[1] != "I64ShrU"@[1]);
            assert("I32ShrU"@[1] != "I64ShrU"@[1]);
            assert("I32Rotl"@[1] != "I64ShrU"@[1]);
            assert("I32Rotr"@[1] != "I64ShrU"@[1]);
            assert("I64DivS"@[3] != "I64ShrU"@[3]);
            assert("I64DivU"@[3] != "I64ShrU"@[3]);
            assert("I64RemS"@[3] != "I64ShrU"@[3]);
            assert("I64RemU"@[3] != "I64ShrU"@[3]);
            assert("I64ShrS"@[6] != "I64ShrU"@[6]);
        },
        Op::I64Rotl => {
            assert("BrTable"@[0] != "I64Rotl"@[0]);
            assert("I32Load"@[1] != "I64Rotl"@[1]);
            assert("I64Load"@[3] != "I64Rotl"@[3]);
            assert("F32Load"@[0] != "I64Rotl"@[0]);
            assert("F64Load"@[0] != "I64Rotl"@[0]);
            assert("I32DivS"@[1] != "I64Rotl"@[1]);
            assert("I32DivU"@[1] != "I64Rotl"@[1]);
            assert("I32RemS"@[1] != "I64Rotl"@[1]);
            assert("I32RemU"@[1] != "I64Rotl"@[1]);
            assert("I32ShrS"@[1] != "I64Rotl"@[1]);
            assert("I32ShrU"@[1] != "I64Rotl"@[1]);
            assert("I32Rotl"@[1] != "I64Rotl"@[1]);
            assert("I32Rotr"@[1] != "I64Rotl"@[1]);
            assert("I64DivS"@[3] != "I64Rotl"@[3]);
            assert("I64DivU"@[3] != "I64Rotl"@[3]);
            assert("I64RemS"@[4] != "I64Rotl"@[4]);
            assert("I64RemU"@[4] != "I64Rotl"@[4]);
            assert("I64ShrS"@[3] != "I64Rotl"@[3]);
            assert("I64ShrU"@[3] != "I64Rotl"@[3]);
        },
        Op::I64Rotr => {
            assert("BrTable"@[0] != "I64Rotr"@[0]);
            assert("I32Load"@[1] != "I64Rotr"@[1]);
            assert("I64Load"@[3] != "I64Rotr"@[3]);
            assert("F32Load"@[0] != "I64Rotr"@[0]);
            assert("F64Load"@[0] != "I64Rotr"@[0]);
            assert("I32DivS"@[1] != "I64Rotr"@[1]);
            assert("I32DivU"@[1] != "I64Rotr"@[1]);
            assert("I32RemS"@[1] != "I64Rotr"@[1]);
            assert("I32RemU"@[1] != "I64Rotr"@[1]);
            assert("I32ShrS"@[1] != "I64Rotr"@[1]);
            assert("I32ShrU"@[1] != "I64Rotr"@[1]);
            assert("I32Rotl"@[1] != "I64Rotr"@[1]);
            assert("I32Rotr"@[1] != "I64Rotr"@[1]);
            assert("I64DivS"@[3] != "I64Rotr"@[3]);
            assert("I64DivU"@[3] != "I64Rotr"@[3]);
            assert("I64RemS"@[4] != "I64Rotr"@[4]);
            assert("I64RemU"@[4] != "I64Rotr"@[4]);
            assert("I64ShrS"@[3] != "I64Rotr"@[3]);
            assert("I64ShrU"@[3] != "I64Rotr"@[3]);
            assert("I64Rotl"@[6] != "I64Rotr"@[6]);
        },
        Op::F32Abs => {
            assert("Return"@[0] != "F32Abs"@[0]);
            assert("Select"@[0] != "F32Abs"@[0]);
            assert("I32Eqz"@[0] != "F32Abs"@[0]);
            assert("I32LtS"@[0] != "F32Abs"@[0]);
            assert("I32LtU"@[0] != "F32Abs"@[0]);
            assert("I32GtS"@[0] != "F32Abs"@[0]);
            assert("I32GtU"@[0] != "F32Abs"@[0]);
            assert("I32LeS"@[0] != "F32Abs"@[0]);
            assert("I32LeU"@[0] != "F32Abs"@[0]);
            assert("I32GeS"@[0] != "F32Abs"@[0]);
            assert("I32GeU"@[0] != "F32Abs"@[0]);
            assert("I64Eqz"@[0] != "F32Abs"@[0]);
            assert("I64LtS"@[0] != "F32Abs"@[0]);
            assert("I64LtU"@[0] != "F32Abs"@[0]);
            assert("I64GtS"@[0] != "F32Abs"@[0]);
            assert("I64GtU"@[0] != "F32Abs"@[0]);
            assert("I64LeS"@[0] != "F32Abs"@[0]);
            assert("I64LeU"@[0] != "F32Abs"@[0]);
            assert("I64GeS"@[0] != "F32Abs"@[0]);
            assert("I64GeU"@[0] != "F32Abs"@[0]);
            assert("I32Clz"@[0] != "F32Abs"@[0]);
            assert("I32Ctz"@[0] != "F32Abs"@[0]);
            assert("I32Add"@[0] != "F32Abs"@[0]);
            assert("I32Sub"@[0] != "F32Abs"@[0]);
            assert("I32Mul"@[0] != "F32Abs"@[0]);
            assert("I32And"@[0] != "F32Abs"@[0]);
            assert("I32Xor"@[0] != "F32Abs"@[0]);
            assert("I32Shl"@[0] != "F32Abs"@[0]);
            assert("I64Clz"@[0] != "F32Abs"@[0]);
            assert("I64Ctz"@[0] != "F32Abs"@[0]);
            assert("I64Add"@[0] != "F32Abs"@[0]);
            assert("I64Sub"@[0] != "F32Abs"@[0]);
            assert("I64Mul"@[0] != "F32Abs"@[0]);
            assert("I64And"@[0] != "F32Abs"@[0]);
            assert("I64Xor"@[0] != "F32Abs"@[0]);
            assert("I64Shl"@[0] != "F32Abs"@[0]);
        },
        Op::F32Neg => {
            assert("Return"@[0] != "F32Neg"@[0]);
            assert("Select"@[0] != "F32Neg"@[0]);
            assert("I32Eqz"@[0] != "F32Neg"@[0]);
            assert("I32LtS"@[0] != "F32Neg"@[0]);
            assert("I32LtU"@[0] != "F32Neg"@[0]);
            assert("I32GtS"@[0] != "F32Neg"@[0]);
            assert("I32GtU"@[0] != "F32Neg"@[0]);
            assert("I32LeS"@[0] != "F32Neg"@[0]);
            assert("I32LeU"@[0] != "F32Neg"@[0]);
            assert("I32GeS"@[0] != "F32Neg"@[0]);
            assert("I32GeU"@[0] != "F32Neg"@[0]);
            assert("I64Eqz"@[0] != "F32Neg"@[0]);
            assert("I64LtS"@[0] != "F32Neg"@[0]);
            assert("I64LtU"@[0] != "F32Neg"@[0]);
            assert("I64GtS"@[0] != "F32Neg"@[0]);
            assert("I64GtU"@[0] != "F32Neg"@[0]);
            assert("I64LeS"@[0] != "F32Neg"@[0]);
            assert("I64LeU"@[0] != "F32Neg"@[0]);
            assert("I64GeS"@[0] != "F32Neg"@[0]);
            assert("I64GeU"@[0] != "F32Neg"@[0]);
            assert("I32Clz"@[0] != "F32Neg"@[0]);
            assert("I32Ctz"@[0] != "F32Neg"@[0]);
            assert("I32Add"@[0] != "F32Neg"@[0]);
            assert("I32Sub"@[0] != "F32Neg"@[0]);
            assert("I32Mul"@[0] != "F32Neg"@[0]);
            assert("I32And"@[0] != "F32Neg"@[0]);
            assert("I32Xor"@[0] != "F32Neg"@[0]);
            assert("I32Shl"@[0] != "F32Neg"@[0]);
            assert("I64Clz"@[0] != "F32Neg"@[0]);
            assert("I64Ctz"@[0] != "F32Neg"@[0]);
            assert("I64Add"@[0] != "F32Neg"@[0]);
            assert("I64Sub"@[0] != "F32Neg"@[0]);
            assert("I64Mul"@[0] != "F32Neg"@[0]);
            assert("I64And"@[0] != "F32Neg"@[0]);
            assert("I64Xor"@[0] != "F32Neg"@[0]);
            assert("I64Shl"@[0] != "F32Neg"@[0]);
            assert("F32Abs"@[3] != "F32Neg"@[3]);
        },
        Op::F32Ceil => {
            assert("BrTable"@[0] != "F32Ceil"@[0]);
            assert("I32Load"@[0] != "F32Ceil"@[0]);
            assert("I64Load"@[0] != "F32Ceil"@[0]);
            assert("F32Load"@[3] != "F32Ceil"@[3]);
            assert("F64Load"@[1] != "F32Ceil"@[1]);
            assert("I32DivS"@[0] != "F32Ceil"@[0]);
            assert("I32DivU"@[0] != "F32Ceil"@[0]);
            assert("I32RemS"@[0] != "F32Ceil"@[0]);
            assert("I32RemU"@[0] != "F32Ceil"@[0]);
            assert("I32ShrS"@[0] != "F32Ceil"@[0]);
            assert("I32ShrU"@[0] != "F32Ceil"@[0]);
            assert("I32Rotl"@[0] != "F32Ceil"@[0]);
            assert("I32Rotr"@[0] != "F32Ceil"@[0]);
            assert("I64DivS"@[0] != "F32Ceil"@[0]);
            assert("I64DivU"@[0] != "F32Ceil"@[0]);
            assert("I64RemS"@[0] != "F32Ceil"@[0]);
            assert("I64RemU"@[0] != "F32Ceil"@[0]);
            assert("I64ShrS"@[0] != "F32Ceil"@[0]);
            assert("I64ShrU"@[0] != "F32Ceil"@[0]);
            assert("I64Rotl"@[0] != "F32Ceil"@[0]);
            assert("I64Rotr"@[0] != "F32Ceil"@[0]);
        },
        Op::F32Floor => {
            assert("LocalGet"@[0] != "F32Floor"@[0]);
            assert("LocalSet"@[0] != "F32Floor"@[0]);
            assert("LocalTee"@[0] != "F32Floor"@[0]);
            assert("I32Store"@[0] != "F32Floor"@[0]);
            assert("I64Store"@[0] != "F32Floor"@[0]);
            assert("F32Store"@[3] != "F32Floor"@[3]);
            assert("F64Store"@[1] != "F32Floor"@[1]);
            assert("I32Const"@[0] != "F32Floor"@[0]);
            assert("I64Const"@[0] != "F32Floor"@[0]);
            assert("F32Const"@[3] != "F32Floor"@[3]);
            assert("F64Const"@[1] != "F32Floor"@[1]);
        },
        Op::F32Trunc => {
            assert("LocalGet"@[0] != "F32Trunc"@[0]);
            assert("LocalSet"@[0] != "F32Trunc"@[0]);
            assert("LocalTee"@[0] != "F32Trunc"@[0]);
            assert("I32Store"@[0] != "F32Trunc"@[0]);
            assert("I64Store"@[0] != "F32Trunc"@[0]);
            assert("F32Store"@[3] != "F32Trunc"@[3]);
            assert("F64Store"@[1] != "F32Trunc"@[1]);
            assert("I32Const"@[0] != "F32Trunc"@[0]);
            assert("I64Const"@[0] != "F32Trunc"@[0]);
            assert("F32Const"@[3] != "F32Trunc"@[3]);
            assert("F64Const"@[1] != "F32Trunc"@[1]);
            assert("F32Floor"@[3] != "F32Trunc"@[3]);
        },
        Op::F32Nearest => {
            assert("I32Load16S"@[0] != "F32Nearest"@[0]);
            assert("I32Load16U"@[0] != "F32Nearest"@[0]);
            assert("I64Load16S"@[0] != "F32Nearest"@[0]);
            assert("I64Load16U"@[0] != "F32Nearest"@[0]);
            assert("I64Load32S"@[0] != "F32Nearest"@[0]);
            assert("I64Load32U"@[0] != "F32Nearest"@[0]);
            assert("I32Store16"@[0] != "F32Nearest"@[0]);
            assert("I64Store16"@[0] != "F32Nearest"@[0]);
            assert("I64Store32"@[0] != "F32Nearest"@[0]);
            assert("MemorySize"@[0] != "F32Nearest"@[0]);
            assert("MemoryGrow"@[0] != "F32Nearest"@[0]);
        },
        Op::F32Sqrt => {
            assert("BrTable"@[0] != "F32Sqrt"@[0]);
            assert("I32Load"@[0] != "F32Sqrt"@[0]);
            assert("I64Load"@[0] != "F32Sqrt"@[0]);
            assert("F32Load"@[3] != "F32Sqrt"@[3]);
            assert("F64Load"@[1] != "F32Sqrt"@[1]);
            assert("I32DivS"@[0] != "F32Sqrt"@[0]);
            assert("I32DivU"@[0] != "F32Sqrt"@[0]);
            assert("I32RemS"@[0] != "F32Sqrt"@[0]);
            assert("I32RemU"@[0] != "F32Sqrt"@[0]);
            assert("I32ShrS"@[0] != "F32Sqrt"@[0]);
            assert("I32ShrU"@[0] != "F32Sqrt"@[0]);
            assert("I32Rotl"@[0] != "F32Sqrt"@[0]);
            assert("I32Rotr"@[0] != "F32Sqrt"@[0]);
            assert("I64DivS"@[0] != "F32Sqrt"@[0]);
            assert("I64DivU"@[0] != "F32Sqrt"@[0]);
            assert("I64RemS"@[0] != "F32Sqrt"@[0]);
            assert("I64RemU"@[0] != "F32Sqrt"@[0]);
            assert("I64ShrS"@[0] != "F32Sqrt"@[0]);
            assert("I64ShrU"@[0] != "F32Sqrt"@[0]);
            assert("I64Rotl"@[0] != "F32Sqrt"@[0]);
            assert("I64Rotr"@[0] != "F32Sqrt"@[0]);
            assert("F32Ceil"@[3] != "F32Sqrt"@[3]);
        },
        Op::F32Add => {
            assert("Return"@[0] != "F32Add"@[0]);
            assert("Select"@[0] != "F32Add"@[0]);
            assert("I32Eqz"@[0] != "F32Add"@[0]);
            assert("I32LtS"@[0] != "F32Add"@[0]);
            assert("I32LtU"@[0] != "F32Add"@[0]);
            assert("I32GtS"@[0] != "F32Add"@[0]);
            assert("I32GtU"@[0] != "F32Add"@[0]);
            assert("I32LeS"@[0] != "F32Add"@[0]);
            assert("I32LeU"@[0] != "F32Add"@[0]);
            assert("I32GeS"@[0] != "F32Add"@[0]);
            assert("I32GeU"@[0] != "F32Add"@[0]);
            assert("I64Eqz"@[0] != "F32Add"@[0]);
            assert("I64LtS"@[0] != "F32Add"@[0]);
            assert("I64LtU"@[0] != "F32Add"@[0]);
            assert("I64GtS"@[0] != "F32Add"@[0]);
            assert("I64GtU"@[0] != "F32Add"@[0]);
            assert("I64LeS"@[0] != "F32Add"@[0]);
            assert("I64LeU"@[0] != "F32Add"@[0]);
            assert("I64GeS"@[0] != "F32Add"@[0]);
            assert("I64GeU"@[0] != "F32Add"@[0]);
            assert("I32Clz"@[0] != "F32Add"@[0]);
            assert("I32Ctz"@[0] != "F32Add"@[0]);
            assert("I32Add"@[0] != "F32Add"@[0]);
            assert("I32Sub"@[0] != "F32Add"@[0]);
            assert("I32Mul"@[0] != "F32Add"@[0]);
            assert("I32And"@[0] != "F32Add"@[0]);
            assert("I32Xor"@[0] != "F32Add"@[0]);
            assert("I32Shl"@[0] != "F32Add"@[0]);
            assert("I64Clz"@[0] != "F32Add"@[0]);
            assert("I64Ctz"@[0] != "F32Add"@[0]);
            assert("I64Add"@[0] != "F32Add"@[0]);
            assert("I64Sub"@[0] != "F32Add"@[0]);
            assert("I64Mul"@[0] != "F32Add"@[0]);
            assert("I64And"@[0] != "F32Add"@[0]);
            assert("I64Xor"@[0] != "F32Add"@[0]);
            assert("I64Shl"@[0] != "F32Add"@[0]);
            assert("F32Abs"@[4] != "F32Add"@[4]);
            assert("F32Neg"@[3] != "F32Add"@[3]);
        },
        Op::F32Sub => {
            assert("Return"@[0] != "F32Sub"@[0]);
            assert("Select"@[0] != "F32Sub"@[0]);
            assert("I32Eqz"@[0] != "F32Sub"@[0]);
            assert("I32LtS"@[0] != "F32Sub"@[0]);
            assert("I32LtU"@[0] != "F32Sub"@[0]);
            assert("I32GtS"@[0] != "F32Sub"@[0]);
            assert("I32GtU"@[0] != "F32Sub"@[0]);
            assert("I32LeS"@[0] != "F32Sub"@[0]);
            assert("I32LeU"@[0] != "F32Sub"@[0]);
            assert("I32GeS"@[0] != "F32Sub"@[0]);
            assert("I32GeU"@[0] != "F32Sub"@[0]);
            assert("I64Eqz"@[0] != "F32Sub"@[0]);
            assert("I64LtS"@[0] != "F32Sub"@[0]);
            assert("I64LtU"@[0] != "F32Sub"@[0]);
            assert("I64GtS"@[0] != "F32Sub"@[0]);
            assert("I64GtU"@[0] != "F32Sub"@[0]);
            assert("I64LeS"@[0] != "F32Sub"@[0]);
            assert("I64LeU"@[0] != "F32Sub"@[0]);
            assert("I64GeS"@[0] != "F32Sub"@[0]);
            assert("I64GeU"@[0] != "F32Sub"@[0]);
            assert("I32Clz"@[0] != "F32Sub"@[0]);
            assert("I32Ctz"@[0] != "F32Sub"@[0]);
            assert("I32Add"@[0] != "F32Sub"@[0]);
            assert("I32Sub"@[0] != "F32Sub"@[0]);
            assert("I32Mul"@[0] != "F32Sub"@[0]);
            assert("I32And"@[0] != "F32Sub"@[0]);
            assert("I32Xor"@[0] != "F32Sub"@[0]);
            assert("I32Shl"@[0] != "F32Sub"@[0]);
            assert("I64Clz"@[0] != "F32Sub"@[0]);
            assert("I64Ctz"@[0] != "F32Sub"@[0]);
            assert("I64Add"@[0] != "F32Sub"@[0]);
            assert("I64Sub"@[0] != "F32Sub"@[0]);
            assert("I64Mul"@[0] != "F32Sub"@[0]);
            assert("I64And"@[0] != "F32Sub"@[0]);
            assert("I64Xor"@[0] != "F32Sub"@[0]);
            assert("I64Shl"@[0] != "F32Sub"@[0]);
            assert("F32Abs"@[3] != "F32Sub"@[3]);
            assert("F32Neg"@[3] != "F32Sub"@[3]);
            assert("F32Add"@[3] != "F32Sub"@[3]);
        },
        Op::F32Mul => {
            assert("Return"@[0] != "F32Mul"@[0]);
            assert("Select"@[0] != "F32Mul"@[0]);
            assert("I32Eqz"@[0] != "F32Mul"@[0]);
            assert("I32LtS"@[0] != "F32Mul"@[0]);
            assert("I32LtU"@[0] != "F32Mul"@[0]);
            assert("I32GtS"@[0] != "F32Mul"@[0]);
            assert("I32GtU"@[0] != "F32Mul"@[0]);
            assert("I32LeS"@[0] != "F32Mul"@[0]);
            assert("I32LeU"@[0] != "F32Mul"@[0]);
            assert("I32GeS"@[0] != "F32Mul"@[0]);
            assert("I32GeU"@[0] != "F32Mul"@[0]);
            assert("I64Eqz"@[0] != "F32Mul"@[0]);
            assert("I64LtS"@[0] != "F32Mul"@[0]);
            assert("I64LtU"@[0] != "F32Mul"@[0]);
            assert("I64GtS"@[0] != "F32Mul"@[0]);
            assert("I64GtU"@[0] != "F32Mul"@[0]);
            assert("I64LeS"@[0] != "F32Mul"@[0]);
            assert("I64LeU"@[0] != "F32Mul"@[0]);
            assert("I64GeS"@[0] != "F32Mul"@[0]);
            assert("I64GeU"@[0] != "F32Mul"@[0]);
            assert("I32Clz"@[0] != "F32Mul"@[0]);
            assert("I32Ctz"@[0] != "F32Mul"@[0]);
            assert("I32Add"@[0] != "F32Mul"@[0]);
            assert("I32Sub"@[0] != "F32Mul"@[0]);
            assert("I32Mul"@[0] != "F32Mul"@[0]);
            assert("I32And"@[0] != "F32Mul"@[0]);
            assert("I32Xor"@[0] != "F32Mul"@[0]);
            assert("I32Shl"@[0] != "F32Mul"@[0]);
            assert("I64Clz"@[0] != "F32Mul"@[0]);
            assert("I64Ctz"@[0] != "F32Mul"@[0]);
            assert("I64Add"@[0] != "F32Mul"@[0]);
            assert("I64Sub"@[0] != "F32Mul"@[0]);
            assert("I64Mul"@[0] != "F32Mul"@[0]);
            assert("I64And"@[0] != "F32Mul"@[0]);
            assert("I64Xor"@[0] != "F32Mul"@[0]);
            assert("I64Shl"@[0] != "F32Mul"@[0]);
            assert("F32Abs"@[3] != "F32Mul"@[3]);
            assert("F32Neg"@[3] != "F32Mul"@[3]);
            assert("F32Add"@[3] != "F32Mul"@[3]);
            assert("F32Sub"@[3] != "F32Mul"@[3]);
        },
        Op::F32Div => {
            assert("Return"@[0] != "F32Div"@[0]);
            assert("Select"@[0] != "F32Div"@[0]);
            assert("I32Eqz"@[0] != "F32Div"@[0]);
            assert("I32LtS"@[0] != "F32Div"@[0]);
            assert("I32LtU"@[0] != "F32Div"@[0]);
            assert("I32GtS"@[0] != "F32Div"@[0]);
            assert("I32GtU"@[0] != "F32Div"@[0]);
            assert("I32LeS"@[0] != "F32Div"@[0]);
            assert("I32LeU"@[0] != "F32Div"@[0]);
            assert("I32GeS"@[0] != "F32Div"@[0]);
            assert("I32GeU"@[0] != "F32Div"@[0]);
            assert("I64Eqz"@[0] != "F32Div"@[0]);
            assert("I64LtS"@[0] != "F32Div"@[0]);
            assert("I64LtU"@[0] != "F32Div"@[0]);
            assert("I64GtS"@[0] != "F32Div"@[0]);
            assert("I64GtU"@[0] != "F32Div"@[0]);
            assert("I64LeS"@[0] != "F32Div"@[0]);
            assert("I64LeU"@[0] != "F32Div"@[0]);
            assert("I64GeS"@[0] != "F32Div"@[0]);
            assert("I64GeU"@[0] != "F32Div"@[0]);
            assert("I32Clz"@[0] != "F32Div"@[0]);
            assert("I32Ctz"@[0] != "F32Div"@[0]);
            assert("I32Add"@[0] != "F32Div"@[0]);
            assert("I32Sub"@[0] != "F32Div"@[0]);
            assert("I32Mul"@[0] != "F32Div"@[0]);
            assert("I32And"@[0] != "F32Div"@[0]);
            assert("I32Xor"@[0] != "F32Div"@[0]);
            assert("I32Shl"@[0] != "F32Div"@[0]);
            assert("I64Clz"@[0] != "F32Div"@[0]);
            assert("I64Ctz"@[0] != "F32Div"@[0]);
            assert("I64Add"@[0] != "F32Div"@[0]);
            assert("I64Sub"@[0] != "F32Div"@[0]);
            assert("I64Mul"@[0] != "F32Div"@[0]);
            assert("I64And"@[0] != "F32Div"@[0]);
            assert("I64Xor"@[0] != "F32Div"@[0]);
            assert("I64Shl"@[0] != "F32Div"@[0]);
            assert("F32Abs"@[3] != "F32Div"@[3]);
            assert("F32Neg"@[3] != "F32Div"@[3]);
            assert("F32Add"@[3] != "F32Div"@[3]);
            assert("F32Sub"@[3] != "F32Div"@[3]);
            assert("F32Mul"@[3] != "F32Div"@[3]);
        },
        Op::F32Min => {
            assert("Return"@[0] != "F32Min"@[0]);
            assert("Select"@[0] != "F32Min"@[0]);
            assert("I32Eqz"@[0] != "F32Min"@[0]);
            assert("I32LtS"@[0] != "F32Min"@[0]);
            assert("I32LtU"@[0] != "F32Min"@[0]);
            assert("I32GtS"@[0] != "F32Min"@[0]);
            assert("I32GtU"@[0] != "F32Min"@[0]);
            assert("I32LeS"@[0] != "F32Min"@[0]);
            assert("I32LeU"@[0] != "F32Min"@[0]);
            assert("I32GeS"@[0] != "F32Min"@[0]);
            assert("I32GeU"@[0] != "F32Min"@[0]);
            assert("I64Eqz"@[0] != "F32Min"@[0]);
            assert("I64LtS"@[0] != "F32Min"@[0]);
            assert("I64LtU"@[0] != "F32Min"@[0]);
            assert("I64GtS"@[0] != "F32Min"@[0]);
            assert("I64GtU"@[0] != "F32Min"@[0]);
            assert("I64LeS"@[0] != "F32Min"@[0]);
            assert("I64LeU"@[0] != "F32Min"@[0]);
            assert("I64GeS"@[0] != "F32Min"@[0]);
            assert("I64GeU"@[0] != "F32Min"@[0]);
            assert("I32Clz"@[0] != "F32Min"@[0]);
            assert("I32Ctz"@[0] != "F32Min"@[0]);
            assert("I32Add"@[0] != "F32Min"@[0]);
            assert("I32Sub"@[0] != "F32Min"@[0]);
            assert("I32Mul"@[0] != "F32Min"@[0]);
            assert("I32And"@[0] != "F32Min"@[0]);
            assert("I32Xor"@[0] != "F32Min"@[0]);
            assert("I32Shl"@[0] != "F32Min"@[0]);
            assert("I64Clz"@[0] != "F32Min"@[0]);
            assert("I64Ctz"@[0] != "F32Min"@[0]);
            assert("I64Add"@[0] != "F32Min"@[0]);
            assert("I64Sub"@[0] != "F32Min"@[0]);
            assert("I64Mul"@[0] != "F32Min"@[0]);
            assert("I64And"@[0] != "F32Min"@[0]);
            assert("I64Xor"@[0] != "F32Min"@[0]);
            assert("I64Shl"@[0] != "F32Min"@[0]);
            assert("F32Abs"@[3] != "F32Min"@[3]);
            assert("F32Neg"@[3] != "F32Min"@[3]);
            assert("F32Add"@[3] != "F32Min"@[3]);
            assert("F32Sub"@[3] != "F32Min"@[3]);
            assert("F32Mul"@[4] != "F32Min"@[4]);
            assert("F32Div"@[3] != "F32Min"@[3]);
        },
        Op::F32Max => {
            assert("Return"@[0] != "F32Max"@[0]);
            assert("Select"@[0] != "F32Max"@[0]);
            assert("I32Eqz"@[0] != "F32Max"@[0]);
            assert("I32LtS"@[0] != "F32Max"@[0]);
            assert("I32LtU"@[0] != "F32Max"@[0]);
            assert("I32GtS"@[0] != "F32Max"@[0]);
            assert("I32GtU"@[0] != "F32Max"@[0]);
            assert("I32LeS"@[0] != "F32Max"@[0]);
            assert("I32LeU"@[0] != "F32Max"@[0]);
            assert("I32GeS"@[0] != "F32Max"@[0]);
            assert("I32GeU"@[0] != "F32Max"@[0]);
            assert("I64Eqz"@[0] != "F32Max"@[0]);
            assert("I64LtS"@[0] != "F32Max"@[0]);
            assert("I64LtU"@[0] != "F32Max"@[0]);
            assert("I64GtS"@[0] != "F32Max"@[0]);
            assert("I64GtU"@[0] != "F32Max"@[0]);
            assert("I64LeS"@[0] != "F32Max"@[0]);
            assert("I64LeU"@[0] != "F32Max"@[0]);
            assert("I64GeS"@[0] != "F32Max"@[0]);
            assert("I64GeU"@[0] != "F32Max"@[0]);
            assert("I32Clz"@[0] != "F32Max"@[0]);
            assert("I32Ctz"@[0] != "F32Max"@[0]);
            assert("I32Add"@[0] != "F32Max"@[0]);
            assert("I32Sub"@[0] != "F32Max"@[0]);
            assert("I32Mul"@[0] != "F32Max"@[0]);
            assert("I32And"@[0] != "F32Max"@[0]);
            assert("I32Xor"@[0] != "F32Max"@[0]);
            assert("I32Shl"@[0] != "F32Max"@[0]);
            assert("I64Clz"@[0] != "F32Max"@[0]);
            assert("I64Ctz"@[0] != "F32Max"@[0]);
            assert("I64Add"@[0] != "F32Max"@[0]);
            assert("I64Sub"@[0] != "F32Max"@[0]);
            assert("I64Mul"@[0] != "F32Max"@[0]);
            assert("I64And"@[0] != "F32Max"@[0]);
            assert("I64Xor"@[0] != "F32Max"@[0]);
            assert("I64Shl"@[0] != "F32Max"@[0]);
            assert("F32Abs"@[3] != "F32Max"@[3]);
            assert("F32Neg"@[3] != "F32Max"@[3]);
            assert("F32Add"@[3] != "F32Max"@[3]);
            assert("F32Sub"@[3] != "F32Max"@[3]);
            assert("F32Mul"@[4] != "F32Max"@[4]);
            assert("F32Div"@[3] != "F32Max"@[3]);
            assert("F32Min"@[4] != "F32Max"@[4]);
        },
        Op::F32Copysign => {
            assert("Unreachable"@[0] != "F32Copysign"@[0]);
        },
        Op::F64Abs => {
            assert("Return"@[0] != "F64Abs"@[0]);
            assert("Select"@[0] != "F64Abs"@[0]);
            assert("I32Eqz"@[0] != "F64Abs"@[0]);
            assert("I32LtS"@[0] != "F64Abs"@[0]);
            assert("I32LtU"@[0] != "F64Abs"@[0]);
            assert("I32GtS"@[0] != "F64Abs"@[0]);
            assert("I32GtU"@[0] != "F64Abs"@[0]);
            assert("I32LeS"@[0] != "F64Abs"@[0]);
            assert("I32LeU"@[0] != "F64Abs"@[0]);
            assert("I32GeS"@[0] != "F64Abs"@[0]);
            assert("I32GeU"@[0] != "F64Abs"@[0]);
            assert("I64Eqz"@[0] != "F64Abs"@[0]);
            assert("I64LtS"@[0] != "F64Abs"@[0]);
            assert("I64LtU"@[0] != "F64Abs"@[0]);
            assert("I64GtS"@[0] != "F64Abs"@[0]);
            assert("I64GtU"@[0] != "F64Abs"@[0]);
            assert("I64LeS"@[0] != "F64Abs"@[0]);
            assert("I64LeU"@[0] != "F64Abs"@[0]);
            assert("I64GeS"@[0] != "F64Abs"@[0]);
            assert("I64GeU"@[0] != "F64Abs"@[0]);
            assert("I32Clz"@[0] != "F64Abs"@[0]);
            assert("I32Ctz"@[0] != "F64Abs"@[0]);
            assert("I32Add"@[0] != "F64Abs"@[0]);
            assert("I32Sub"@[0] != "F64Abs"@[0]);
            assert("I32Mul"@[0] != "F64Abs"@[0]);
            assert("I32And"@[0] != "F64Abs"@[0]);
            assert("I32Xor"@[0] != "F64Abs"@[0]);
            assert("I32Shl"@[0] != "F64Abs"@[0]);
            assert("I64Clz"@[0] != "F64Abs"@[0]);
            assert("I64Ctz"@[0] != "F64Abs"@[0]);
            assert("I64Add"@[0] != "F64Abs"@[0]);
            assert("I64Sub"@[0] != "F64Abs"@[0]);
            assert("I64Mul"@[0] != "F64Abs"@[0]);
            assert("I64And"@[0] != "F64Abs"@[0]);
            assert("I64Xor"@[0] != "F64Abs"@[0]);
            assert("I64Shl"@[0] != "F64Abs"@[0]);
            assert("F32Abs"@[1] != "F64Abs"@[1]);
            assert("F32Neg"@[1] != "F64Abs"@[1]);
            assert("F32Add"@[1] != "F64Abs"@[1]);
            assert("F32Sub"@[1] != "F64Abs"@[1]);
            assert("F32Mul"@[1] != "F64Abs"@[1]);
            assert("F32Div"@[1] != "F64Abs"@[1]);
            assert("F32Min"@[1] != "F64Abs"@[1]);
            assert("F32Max"@[1] != "F64Abs"@[1]);
        },
        Op::F64Neg => {
            assert("Return"@[0] != "F64Neg"@[0]);
            assert("Select"@[0] != "F64Neg"@[0]);
            assert("I32Eqz"@[0] != "F64Neg"@[0]);
            assert("I32LtS"@[0] != "F64Neg"@[0]);
            assert("I32LtU"@[0] != "F64Neg"@[0]);
            assert("I32GtS"@[0] != "F64Neg"@[0]);
            assert("I32GtU"@[0] != "F64Neg"@[0]);
            assert("I32LeS"@[0] != "F64Neg"@[0]);
            assert("I32LeU"@[0] != "F64Neg"@[0]);
            assert("I32GeS"@[0] != "F64Neg"@[0]);
            assert("I32GeU"@[0] != "F64Neg"@[0]);
            assert("I64Eqz"@[0] != "F64Neg"@[0]);
            assert("I64LtS"@[0] != "F64Neg"@[0]);
            assert("I64LtU"@[0] != "F64Neg"@[0]);
            assert("I64GtS"@[0] != "F64Neg"@[0]);
            assert("I64GtU"@[0] != "F64Neg"@[0]);
            assert("I64LeS"@[0] != "F64Neg"@[0]);
            assert("I64LeU"@[0] != "F64Neg"@[0]);
            assert("I64GeS"@[0] != "F64Neg"@[0]);
            assert("I64GeU"@[0] != "F64Neg"@[0]);
            assert("I32Clz"@[0] != "F64Neg"@[0]);
            assert("I32Ctz"@[0] != "F64Neg"@[0]);
            assert("I32Add"@[0] != "F64Neg"@[0]);
            assert("I32Sub"@[0] != "F64Neg"@[0]);
            assert("I32Mul"@[0] != "F64Neg"@[0]);
            assert("I32And"@[0] != "F64Neg"@[0]);
            assert("I32Xor"@[0] != "F64Neg"@[0]);
            assert("I32Shl"@[0] != "F64Neg"@[0]);
            assert("I64Clz"@[0] != "F64Neg"@[0]);
            assert("I64Ctz"@[0] != "F64Neg"@[0]);
            assert("I64Add"@[0] != "F64Neg"@[0]);
            assert("I64Sub"@[0] != "F64Neg"@[0]);
            assert("I64Mul"@[0] != "F64Neg"@[0]);
            assert("I64And"@[0] != "F64Neg"@[0]);
            assert("I64Xor"@[0] != "F64Neg"@[0]);
            assert("I64Shl"@[0] != "F64Neg"@[0]);
            assert("F32Abs"@[1] != "F64Neg"@[1]);
            assert("F32Neg"@[1] != "F64Neg"@[1]);
            assert("F32Add"@[1] != "F64Neg"@[1]);
            assert("F32Sub"@[1] != "F64Neg"@[1]);
            assert("F32Mul"@[1] != "F64Neg"@[1]);
            assert("F32Div"@[1] != "F64Neg"@[1]);
            assert("F32Min"@[1] != "F64Neg"@[1]);
            assert("F32Max"@[1] != "F64Neg"@[1]);
            assert("F64Abs"@[3] != "F64Neg"@[3]);
        },
        Op::F64Ceil => {
            assert("BrTable"@[0] != "F64Ceil"@[0]);
            assert("I32Load"@[0] != "F64Ceil"@[0]);
            assert("I64Load"@[0] != "F64Ceil"@[0]);
            assert("F32Load"@[1] != "F64Ceil"@[1]);
            assert("F64Load"@[3] != "F64Ceil"@[3]);
            assert("I32DivS"@[0] != "F64Ceil"@[0]);
            assert("I32DivU"@[0] != "F64Ceil"@[0]);
            assert("I32RemS"@[0] != "F64Ceil"@[0]);
            assert("I32RemU"@[0] != "F64Ceil"@[0]);
            assert("I32ShrS"@[0] != "F64Ceil"@[0]);
            assert("I32ShrU"@[0] != "F64Ceil"@[0]);
            assert("I32Rotl"@[0] != "F64Ceil"@[0]);
            assert("I32Rotr"@[0] != "F64Ceil"@[0]);
            assert("I64DivS"@[0] != "F64Ceil"@[0]);
            assert("I64DivU"@[0] != "F64Ceil"@[0]);
            assert("I64RemS"@[0] != "F64Ceil"@[0]);
            assert("I64RemU"@[0] != "F64Ceil"@[0]);
            assert("I64ShrS"@[0] != "F64Ceil"@[0]);
            assert("I64ShrU"@[0] != "F64Ceil"@[0]);
            assert("I64Rotl"@[0] != "F64Ceil"@[0]);
            assert("I64Rotr"@[0] != "F64Ceil"@[0]);
            assert("F32Ceil"@[1] != "F64Ceil"@[1]);
            assert("F32Sqrt"@[1] != "F64Ceil"@[1]);
        },
        Op::F64Floor => {
            assert("LocalGet"@[0] != "F64Floor"@[0]);
            assert("LocalSet"@[0] != "F64Floor"@[0]);
            assert("LocalTee"@[0] != "F64Floor"@[0]);
            assert("I32Store"@[0] != "F64Floor"@[0]);
            assert("I64Store"@[0] != "F64Floor"@[0]);
            assert("F32Store"@[1] != "F64Floor"@[1]);
            assert("F64Store"@[3] != "F64Floor"@[3]);
            assert("I32Const"@[0] != "F64Floor"@[0]);
            assert("I64Const"@[0] != "F64Floor"@[0]);
            assert("F32Const"@[1] != "F64Floor"@[1]);
            assert("F64Const"@[3] != "F64Floor"@[3]);
            assert("F32Floor"@[1] != "F64Floor"@[1]);
            assert("F32Trunc"@[1] != "F64Floor"@[1]);
        },
        Op::F64Trunc => {
            assert("LocalGet"@[0] != "F64Trunc"@[0]);
            assert("LocalSet"@[0] != "F64Trunc"@[0]);
            assert("LocalTee"@[0] != "F64Trunc"@[0]);
            assert("I32Store"@[0] != "F64Trunc"@[0]);
            assert("I64Store"@[0] != "F64Trunc"@[0]);
            assert("F32Store"@[1] != "F64Trunc"@[1]);
            assert("F64Store"@[3] != "F64Trunc"@[3]);
            assert("I32Const"@[0] != "F64Trunc"@[0]);
            assert("I64Const"@[0] != "F64Trunc"@[0]);
            assert("F32Const"@[1] != "F64Trunc"@[1]);
            assert("F64Const"@[3] != "F64Trunc"@[3]);
            assert("F32Floor"@[1] != "F64Trunc"@[1]);
            assert("F32Trunc"@[1] != "F64Trunc"@[1]);
            assert("F64Floor"@[3] != "F64Trunc"@[3]);
        },
        Op::F64Nearest => {
            assert("I32Load16S"@[0] != "F64Nearest"@[0]);
            assert("I32Load16U"@[0] != "F64Nearest"@[0]);
            assert("I64Load16S"@[0] != "F64Nearest"@[0]);
            assert("I64Load16U"@[0] != "F64Nearest"@[0]);
            assert("I64Load32S"@[0] != "F64Nearest"@[0]);
            assert("I64Load32U"@[0] != "F64Nearest"@[0]);
            assert("I32Store16"@[0] != "F64Nearest"@[0]);
            assert("I64Store16"@[0] != "F64Nearest"@[0]);
            assert("I64Store32"@[0] != "F64Nearest"@[0]);
            assert("MemorySize"@[0] != "F64Nearest"@[0]);
            assert("MemoryGrow"@[0] != "F64Nearest"@[0]);
            assert("F32Nearest"@[1] != "F64Nearest"@[1]);
        },
        Op::F64Sqrt => {
            assert("BrTable"@[0] != "F64Sqrt"@[0]);
            assert("I32Load"@[0] != "F64Sqrt"@[0]);
            assert("I64Load"@[0] != "F64Sqrt"@[0]);
            assert("F32Load"@[1] != "F64Sqrt"@[1]);
            assert("F64Load"@[3] != "F64Sqrt"@[3]);
            assert("I32DivS"@[0] != "F64Sqrt"@[0]);
            assert("I32DivU"@[0] != "F64Sqrt"@[0]);
            assert("I32RemS"@[0] != "F64Sqrt"@[0]);
            assert("I32RemU"@[0] != "F64Sqrt"@[0]);
            assert("I32ShrS"@[0] != "F64Sqrt"@[0]);
            assert("I32ShrU"@[0] != "F64Sqrt"@[0]);
            assert("I32Rotl"@[0] != "F64Sqrt"@[0]);
            assert("I32Rotr"@[0] != "F64Sqrt"@[0]);
            assert("I64DivS"@[0] != "F64Sqrt"@[0]);
            assert("I64DivU"@[0] != "F64Sqrt"@[0]);
            assert("I64RemS"@[0] != "F64Sqrt"@[0]);
            assert("I64RemU"@[0] != "F64Sqrt"@[0]);
            assert("I64ShrS"@[0] != "F64Sqrt"@[0]);
            assert("I64ShrU"@[0] != "F64Sqrt"@[0]);
            assert("I64Rotl"@[0] != "F64Sqrt"@[0]);
            assert("I64Rotr"@[0] != "F64Sqrt"@[0]);
            assert("F32Ceil"@[1] != "F64Sqrt"@[1]);
            assert("F32Sqrt"@[1] != "F64Sqrt"@[1]);
            assert("F64Ceil"@[3] != "F64Sqrt"@[3]);
        },
        Op::F64Add => {
            assert("Return"@[0] != "F64Add"@[0]);
            assert("Select"@[0] != "F64Add"@[0]);
            assert("I32Eqz"@[0] != "F64Add"@[0]);
            assert("I32LtS"@[0] != "F64Add"@[0]);
            assert("I32LtU"@[0] != "F64Add"@[0]);
            assert("I32GtS"@[0] != "F64Add"@[0]);
            assert("I32GtU"@[0] != "F64Add"@[0]);
            assert("I32LeS"@[0] != "F64Add"@[0]);
            assert("I32LeU"@[0] != "F64Add"@[0]);
            assert("I32GeS"@[0] != "F64Add"@[0]);
            assert("I32GeU"@[0] != "F64Add"@[0]);
            assert("I64Eqz"@[0] != "F64Add"@[0]);
            assert("I64LtS"@[0] != "F64Add"@[0]);
            assert("I64LtU"@[0] != "F64Add"@[0]);
            assert("I64GtS"@[0] != "F64Add"@[0]);
            assert("I64GtU"@[0] != "F64Add"@[0]);
            assert("I64LeS"@[0] != "F64Add"@[0]);
            assert("I64LeU"@[0] != "F64Add"@[0]);
            assert("I64GeS"@[0] != "F64Add"@[0]);
            assert("I64GeU"@[0] != "F64Add"@[0]);
            assert("I32Clz"@[0] != "F64Add"@[0]);
            assert("I32Ctz"@[0] != "F64Add"@[0]);
            assert("I32Add"@[0] != "F64Add"@[0]);
            assert("I32Sub"@[0] != "F64Add"@[0]);
            assert("I32Mul"@[0] != "F64Add"@[0]);
            assert("I32And"@[0] != "F64Add"@[0]);
            assert("I32Xor"@[0] != "F64Add"@[0]);
            assert("I32Shl"@[0] != "F64Add"@[0]);
            assert("I64Clz"@[0] != "F64Add"@[0]);
            assert("I64Ctz"@[0] != "F64Add"@[0]);
            assert("I64Add"@[0] != "F64Add"@[0]);
            assert("I64Sub"@[0] != "F64Add"@[0]);
            assert("I64Mul"@[0] != "F64Add"@[0]);
            assert("I64And"@[0] != "F64Add"@[0]);
            assert("I64Xor"@[0] != "F64Add"@[0]);
            assert("I64Shl"@[0] != "F64Add"@[0]);
            assert("F32Abs"@[1] != "F64Add"@[1]);
            assert("F32Neg"@[1] != "F64Add"@[1]);
            assert("F32Add"@[1] != "F64Add"@[1]);
            assert("F32Sub"@[1] != "F64Add"@[1]);
            assert("F32Mul"@[1] != "F64Add"@[1]);
            assert("F32Div"@[1] != "F64Add"@[1]);
            assert("F32Min"@[1] != "F64Add"@[1]);
            assert("F32Max"@[1] != "F64Add"@[1]);
            assert("F64Abs"@[4] != "F64Add"@[4]);
            assert("F64Neg"@[3] != "F64Add"@[3]);
        },
        Op::F64Sub => {
            assert("Return"@[0] != "F64Sub"@[0]);
            assert("Select"@[0] != "F64Sub"@[0]);
            assert("I32Eqz"@[0] != "F64Sub"@[0]);
            assert("I32LtS"@[0] != "F64Sub"@[0]);
            assert("I32LtU"@[0] != "F64Sub"@[0]);
            assert("I32GtS"@[0] != "F64Sub"@[0]);
            assert("I32GtU"@[0] != "F64Sub"@[0]);
            assert("I32LeS"@[0] != "F64Sub"@[0]);
            assert("I32LeU"@[0] != "F64Sub"@[0]);
            assert("I32GeS"@[0] != "F64Sub"@[0]);
            assert("I32GeU"@[0] != "F64Sub"@[0]);
            assert("I64Eqz"@[0] != "F64Sub"@[0]);
            assert("I64LtS"@[0] != "F64Sub"@[0]);
            assert("I64LtU"@[0] != "F64Sub"@[0]);
            assert("I64GtS"@[0] != "F64Sub"@[0]);
            assert("I64GtU"@[0] != "F64Sub"@[0]);
            assert("I64LeS"@[0] != "F64Sub"@[0]);
            assert("I64LeU"@[0] != "F64Sub"@[0]);
            assert("I64GeS"@[0] != "F64Sub"@[0]);
            assert("I64GeU"@[0] != "F64Sub"@[0]);
            assert("I32Clz"@[0] != "F64Sub"@[0]);
            assert("I32Ctz"@[0] != "F64Sub"@[0]);
            assert("I32Add"@[0] != "F64Sub"@[0]);
            assert("I32Sub"@[0] != "F64Sub"@[0]);
            assert("I32Mul"@[0] != "F64Sub"@[0]);
            assert("I32And"@[0] != "F64Sub"@[0]);
            assert("I32Xor"@[0] != "F64Sub"@[0]);
            assert("I32Shl"@[0] != "F64Sub"@[0]);
            assert("I64Clz"@[0] != "F64Sub"@[0]);
            assert("I64Ctz"@[0] != "F64Sub"@[0]);
            assert("I64Add"@[0] != "F64Sub"@[0]);
            assert("I64Sub"@[0] != "F64Sub"@[0]);
            assert("I64Mul"@[0] != "F64Sub"@[0]);
            assert("I64And"@[0] != "F64Sub"@[0]);
            assert("I64Xor"@[0] != "F64Sub"@[0]);
            assert("I64Shl"@[0] != "F64Sub"@[0]);
            assert("F32Abs"@[1] != "F64Sub"@[1]);
            assert("F32Neg"@[1] != "F64Sub"@[1]);
            assert("F32Add"@[1] != "F64Sub"@[1]);
            assert("F32Sub"@[1] != "F64Sub"@[1]);
            assert("F32Mul"@[1] != "F64Sub"@[1]);
            assert("F32Div"@[1] != "F64Sub"@[1]);
            assert("F32Min"@[1] != "F64Sub"@[1]);
            assert("F32Max"@[1] != "F64Sub"@[1]);
            assert("F64Abs"@[3] != "F64Sub"@[3]);
            assert("F64Neg"@[3] != "F64Sub"@[3]);
            assert("F64Add"@[3] != "F64Sub"@[3]);
        },
        Op::F64Mul => {
            assert("Return"@[0] != "F64Mul"@[0]);
            assert("Select"@[0] != "F64Mul"@[0]);
            assert("I32Eqz"@[0] != "F64Mul"@[0]);
            assert("I32LtS"@[0] != "F64Mul"@[0]);
            assert("I32LtU"@[0] != "F64Mul"@[0]);
            assert("I32GtS"@[0] != "F64Mul"@[0]);
            assert("I32GtU"@[0] != "F64Mul"@[0]);
            assert("I32LeS"@[0] != "F64Mul"@[0]);
            assert("I32LeU"@[0] != "F64Mul"@[0]);
            assert("I32GeS"@[0] != "F64Mul"@[0]);
            assert("I32GeU"@[0] != "F64Mul"@[0]);
            assert("I64Eqz"@[0] != "F64Mul"@[0]);
            assert("I64LtS"@[0] != "F64Mul"@[0]);
            assert("I64LtU"@[0] != "F64Mul"@[0]);
            assert("I64GtS"@[0] != "F64Mul"@[0]);
            assert("I64GtU"@[0] != "F64Mul"@[0]);
            assert("I64LeS"@[0] != "F64Mul"@[0]);
            assert("I64LeU"@[0] != "F64Mul"@[0]);
            assert("I64GeS"@[0] != "F64Mul"@[0]);
            assert("I64GeU"@[0] != "F64Mul"@[0]);
            assert("I32Clz"@[0] != "F64Mul"@[0]);
            assert("I32Ctz"@[0] != "F64Mul"@[0]);
            assert("I32Add"@[0] != "F64Mul"@[0]);
            assert("I32Sub"@[0] != "F64Mul"@[0]);
            assert("I32Mul"@[0] != "F64Mul"@[0]);
            assert("I32And"@[0] != "F64Mul"@[0]);
            assert("I32Xor"@[0] != "F64Mul"@[0]);
            assert("I32Shl"@[0] != "F64Mul"@[0]);
            assert("I64Clz"@[0] != "F64Mul"@[0]);
            assert("I64Ctz"@[0] != "F64Mul"@[0]);
            assert("I64Add"@[0] != "F64Mul"@[0]);
            assert("I64Sub"@[0] != "F64Mul"@[0]);
            assert("I64Mul"@[0] != "F64Mul"@[0]);
            assert("I64And"@[0] != "F64Mul"@[0]);
            assert("I64Xor"@[0] != "F64Mul"@[0]);
            assert("I64Shl"@[0] != "F64Mul"@[0]);
            assert("F32Abs"@[1] != "F64Mul"@[1]);
            assert("F32Neg"@[1] != "F64Mul"@[1]);
            assert("F32Add"@[1] != "F64Mul"@[1]);
            assert("F32Sub"@[1] != "F64Mul"@[1]);
            assert("F32Mul"@[1] != "F64Mul"@[1]);
            assert("F32Div"@[1] != "F64Mul"@[1]);
            assert("F32Min"@[1] != "F64Mul"@[1]);
            assert("F32Max"@[1] != "F64Mul"@[1]);
            assert("F64Abs"@[3] != "F64Mul"@[3]);
            assert("F64Neg"@[3] != "F64Mul"@[3]);
            assert("F64Add"@[3] != "F64Mul"@[3]);
            assert("F64Sub"@[3] != "F64Mul"@[3]);
        },
        Op::F64Div => {
            assert("Return"@[0] != "F64Div"@[0]);
            assert("Select"@[0] != "F64Div"@[0]);
            assert("I32Eqz"@[0] != "F64Div"@[0]);
            assert("I32LtS"@[0] != "F64Div"@[0]);
            assert("I32LtU"@[0] != "F64Div"@[0]);
            assert("I32GtS"@[0] != "F64Div"@[0]);
            assert("I32GtU"@[0] != "F64Div"@[0]);
            assert("I32LeS"@[0] != "F64Div"@[0]);
            assert("I32LeU"@[0] != "F64Div"@[0]);
            assert("I32GeS"@[0] != "F64Div"@[0]);
            assert("I32GeU"@[0] != "F64Div"@[0]);
            assert("I64Eqz"@[0] != "F64Div"@[0]);
            assert("I64LtS"@[0] != "F64Div"@[0]);
            assert("I64LtU"@[0] != "F64Div"@[0]);
            assert("I64GtS"@[0] != "F64Div"@[0]);
            assert("I64GtU"@[0] != "F64Div"@[0]);
            assert("I64LeS"@[0] != "F64Div"@[0]);
            assert("I64LeU"@[0] != "F64Div"@[0]);
            assert("I64GeS"@[0] != "F64Div"@[0]);
            assert("I64GeU"@[0] != "F64Div"@[0]);
            assert("I32Clz"@[0] != "F64Div"@[0]);
            assert("I32Ctz"@[0] != "F64Div"@[0]);
            assert("I32Add"@[0] != "F64Div"@[0]);
            assert("I32Sub"@[0] != "F64Div"@[0]);
            assert("I32Mul"@[0] != "F64Div"@[0]);
            assert("I32And"@[0] != "F64Div"@[0]);
            assert("I32Xor"@[0] != "F64Div"@[0]);
            assert("I32Shl"@[0] != "F64Div"@[0]);
            assert("I64Clz"@[0] != "F64Div"@[0]);
            assert("I64Ctz"@[0] != "F64Div"@[0]);
            assert("I64Add"@[0] != "F64Div"@[0]);
            assert("I64Sub"@[0] != "F64Div"@[0]);
            assert("I64Mul"@[0] != "F64Div"@[0]);
            assert("I64And"@[0] != "F64Div"@[0]);
            assert("I64Xor"@[0] != "F64Div"@[0]);
            assert("I64Shl"@[0] != "F64Div"@[0]);
            assert("F32Abs"@[1] != "F64Div"@[1]);
            assert("F32Neg"@[1] != "F64Div"@[1]);
            assert("F32Add"@[1] != "F64Div"@[1]);
            assert("F32Sub"@[1] != "F64Div"@[1]);
            assert("F32Mul"@[1] != "F64Div"@[1]);
            assert("F32Div"@[1] != "F64Div"@[1]);
            assert("F32Min"@[1] != "F64Div"@[1]);
            assert("F32Max"@[1] != "F64Div"@[1]);
            assert("F64Abs"@[3] != "F64Div"@[3]);
            assert("F64Neg"@[3] != "F64Div"@[3]);
            assert("F64Add"@[3] != "F64Div"@[3]);
            assert("F64Sub"@[3] != "F64Div"@[3]);
            assert("F64Mul"@[3] != "F64Div"@[3]);
        },
        Op::F64Min => {
            assert("Return"@[0] != "F64Min"@[0]);
            assert("Select"@[0] != "F64Min"@[0]);
            assert("I32Eqz"@[0] != "F64Min"@[0]);
            assert("I32LtS"@[0] != "F64Min"@[0]);
            assert("I32LtU"@[0] != "F64Min"@[0]);
            assert("I32GtS"@[0] != "F64Min"@[0]);
            assert("I32GtU"@[0] != "F64Min"@[0]);
            assert("I32LeS"@[0] != "F64Min"@[0]);
            assert("I32LeU"@[0] != "F64Min"@[0]);
            assert("I32GeS"@[0] != "F64Min"@[0]);
            assert("I32GeU"@[0] != "F64Min"@[0]);
            assert("I64Eqz"@[0] != "F64Min"@[0]);
            assert("I64LtS"@[0] != "F64Min"@[0]);
            assert("I64LtU"@[0] != "F64Min"@[0]);
            assert("I64GtS"@[0] != "F64Min"@[0]);
            assert("I64GtU"@[0] != "F64Min"@[0]);
            assert("I64LeS"@[0] != "F64Min"@[0]);
            assert("I64LeU"@[0] != "F64Min"@[0]);
            assert("I64GeS"@[0] != "F64Min"@[0]);
            assert("I64GeU"@[0] != "F64Min"@[0]);
            assert("I32Clz"@[0] != "F64Min"@[0]);
            assert("I32Ctz"@[0] != "F64Min"@[0]);
            assert("I32Add"@[0] != "F64Min"@[0]);
            assert("I32Sub"@[0] != "F64Min"@[0]);
            assert("I32Mul"@[0] != "F64Min"@[0]);
            assert("I32And"@[0] != "F64Min"@[0]);
            assert("I32Xor"@[0] != "F64Min"@[0]);
            assert("I32Shl"@[0] != "F64Min"@[0]);
            assert("I64Clz"@[0] != "F64Min"@[0]);
            assert("I64Ctz"@[0] != "F64Min"@[0]);
            assert("I64Add"@[0] != "F64Min"@[0]);
            assert("I64Sub"@[0] != "F64Min"@[0]);
            assert("I64Mul"@[0] != "F64Min"@[0]);
            assert("I64And"@[0] != "F64Min"@[0]);
            assert("I64Xor"@[0] != "F64Min"@[0]);
            assert("I64Shl"@[0] != "F64Min"@[0]);
            assert("F32Abs"@[1] != "F64Min"@[1]);
            assert("F32Neg"@[1] != "F64Min"@[1]);
            assert("F32Add"@[1] != "F64Min"@[1]);
            assert("F32Sub"@[1] != "F64Min"@[1]);
            assert("F32Mul"@[1] != "F64Min"@[1]);
            assert("F32Div"@[1] != "F64Min"@[1]);
            assert("F32Min"@[1] != "F64Min"@[1]);
            assert("F32Max"@[1] != "F64Min"@[1]);
            assert("F64Abs"@[3] != "F64Min"@[3]);
            assert("F64Neg"@[3] != "F64Min"@[3]);
            assert("F64Add"@[3] != "F64Min"@[3]);
            assert("F64Sub"@[3] != "F64Min"@[3]);
            assert("F64Mul"@[4] != "F64Min"@[4]);
            assert("F64Div"@[3] != "F64Min"@[3]);
        },
        Op::F64Max => {
            assert("Return"@[0] != "F64Max"@[0]);
            assert("Select"@[0] != "F64Max"@[0]);
            assert("I32Eqz"@[0] != "F64Max"@[0]);
            assert("I32LtS"@[0] != "F64Max"@[0]);
            assert("I32LtU"@[0] != "F64Max"@[0]);
            assert("I32GtS"@[0] != "F64Max"@[0]);
            assert("I32GtU"@[0] != "F64Max"@[0]);
            assert("I32LeS"@[0] != "F64Max"@[0]);
            assert("I32LeU"@[0] != "F64Max"@[0]);
            assert("I32GeS"@[0] != "F64Max"@[0]);
            assert("I32GeU"@[0] != "F64Max"@[0]);
            assert("I64Eqz"@[0] != "F64Max"@[0]);
            assert("I64LtS"@[0] != "F64Max"@[0]);
            assert("I64LtU"@[0] != "F64Max"@[0]);
            assert("I64GtS"@[0] != "F64Max"@[0]);
            assert("I64GtU"@[0] != "F64Max"@[0]);
            assert("I64LeS"@[0] != "F64Max"@[0]);
            assert("I64LeU"@[0] != "F64Max"@[0]);
            assert("I64GeS"@[0] != "F64Max"@[0]);
            assert("I64GeU"@[0] != "F64Max"@[0]);
            assert("I32Clz"@[0] != "F64Max"@[0]);
            assert("I32Ctz"@[0] != "F64Max"@[0]);
            assert("I32Add"@[0] != "F64Max"@[0]);
            assert("I32Sub"@[0] != "F64Max"@[0]);
            assert("I32Mul"@[0] != "F64Max"@[0]);
            assert("I32And"@[0] != "F64Max"@[0]);
            assert("I32Xor"@[0] != "F64Max"@[0]);
            assert("I32Shl"@[0] != "F64Max"@[0]);
            assert("I64Clz"@[0] != "F64Max"@[0]);
            assert("I64Ctz"@[0] != "F64Max"@[0]);
            assert("I64Add"@[0] != "F64Max"@[0]);
            assert("I64Sub"@[0] != "F64Max"@[0]);
            assert("I64Mul"@[0] != "F64Max"@[0]);
            assert("I64And"@[0] != "F64Max"@[0]);
            assert("I64Xor"@[0] != "F64Max"@[0]);
            assert("I64Shl"@[0] != "F64Max"@[0]);
            assert("F32Abs"@[1] != "F64Max"@[1]);
            assert("F32Neg"@[1] != "F64Max"@[1]);
            assert("F32Add"@[1] != "F64Max"@[1]);
            assert("F32Sub"@[1] != "F64Max"@[1]);
            assert("F32Mul"@[1] != "F64Max"@[1]);
            assert("F32Div"@[1] != "F64Max"@[1]);
            assert("F32Min"@[1] != "F64Max"@[1]);
            assert("F32Max"@[1] != "F64Max"@[1]);
            assert("F64Abs"@[3] != "F64Max"@[3]);
            assert("F64Neg"@[3] != "F64Max"@[3]);
            assert("F64Add"@[3] != "F64Max"@[3]);
            assert("F64Sub"@[3] != "F64Max"@[3]);
            assert("F64Mul"@[4] != "F64Max"@[4]);
            assert("F64Div"@[3] != "F64Max"@[3]);
            assert("F64Min"@[4] != "F64Max"@[4]);
        },
        Op::F64Copysign => {
            assert("Unreachable"@[0] != "F64Copysign"@[0]);
            assert("F32Copysign"@[1] != "F64Copysign"@[1]);
        },
        Op::I32WrapI64 => {
            assert("I32Load16S"@[3] != "I32WrapI64"@[3]);
            assert("I32Load16U"@[3] != "I32WrapI64"@[3]);
            assert("I64Load16S"@[1] != "I32WrapI64"@[1]);
            assert("I64Load16U"@[1] != "I32WrapI64"@[1]);
            assert("I64Load32S"@[1] != "I32WrapI64"@[1]);
            assert("I64Load32U"@[1] != "I32WrapI64"@[1]);
            assert("I32Store16"@[3] != "I32WrapI64"@[3]);
            assert("I64Store16"@[1] != "I32WrapI64"@[1]);
            assert("I64Store32"@[1] != "I32WrapI64"@[1]);
            assert("MemorySize"@[0] != "I32WrapI64"@[0]);
            assert("MemoryGrow"@[0] != "I32WrapI64"@[0]);
            assert("F32Nearest"@[0] != "I32WrapI64"@[0]);
            assert("F64Nearest"@[0] != "I32WrapI64"@[0]);
        },
        Op::I32TruncF32S => {
            assert("CallIndirect"@[0] != "I32TruncF32S"@[0]);
        },
        Op::I32TruncF32U => {
            assert("CallIndirect"@[0] != "I32TruncF32U"@[0]);
            assert("I32TruncF32S"@[11] != "I32TruncF32U"@[11]);
        },
        Op::I32TruncF64S => {
            assert("CallIndirect"@[0] != "I32TruncF64S"@[0]);
            assert("I32TruncF32S"@[9] != "I32TruncF64S"@[9]);
            assert("I32TruncF32U"@[9] != "I32TruncF64S"@[9]);
        },
        Op::I32TruncF64U => {
            assert("CallIndirect"@[0] != "I32TruncF64U"@[0]);
            assert("I32TruncF32S"@[9] != "I32TruncF64U"@[9]);
            assert("I32TruncF32U"@[9] != "I32TruncF64U"@[9]);
            assert("I32TruncF64S"@[11] != "I32TruncF64U"@[11]);
        },
        Op::I64ExtendI32S => {},
        Op::I64ExtendI32U => {
            assert("I64ExtendI32S"@[12] != "I64ExtendI32U"@[12]);
        },
        Op::I64TruncF32S => {
            assert("CallIndirect"@[0] != "I64TruncF32S"@[0]);
            assert("I32TruncF32S"@[1] != "I64TruncF32S"@[1]);
            assert("I32TruncF32U"@[1] != "I64TruncF32S"@[1]);
            assert("I32TruncF64S"@[1] != "I64TruncF32S"@[1]);
            assert("I32TruncF64U"@[1] != "I64TruncF32S"@[1]);
        },
        Op::I64TruncF32U => {
            assert("CallIndirect"@[0] != "I64TruncF32U"@[0]);
            assert("I32TruncF32S"@[1] != "I64TruncF32U"@[1]);
            assert("I32TruncF32U"@[1] != "I64TruncF32U"@[1]);
            assert("I32TruncF64S"@[1] != "I64TruncF32U"@[1]);
            assert("I32TruncF64U"@[1] != "I64TruncF32U"@[1]);
            assert("I64TruncF32S"@[11] != "I64TruncF32U"@[11]);
        },
        Op::I64TruncF64S => {
            assert("CallIndirect"@[0] != "I64TruncF64S"@[0]);
            assert("I32TruncF32S"@[1] != "I64TruncF64S"@[1]);
            assert("I32TruncF32U"@[1] != "I64TruncF64S"@[1]);
            assert("I32TruncF64S"@[1] != "I64TruncF64S"@[1]);
            assert("I32TruncF64U"@[1] != "I64TruncF64S"@[1]);
            assert("I64TruncF32S"@[9] != "I64TruncF64S"@[9]);
            assert("I64TruncF32U"@[9] != "I64TruncF64S"@[9]);
        },
        Op::I64TruncF64U => {
            assert("CallIndirect"@[0] != "I64TruncF64U"@[0]);
            assert("I32TruncF32S"@[1] != "I64TruncF64U"@[1]);
            assert("I32TruncF32U"@[1] != "I64TruncF64U"@[1]);
            assert("I32TruncF64S"@[1] != "I64TruncF64U"@[1]);
            assert("I32TruncF64U"@[1] != "I64TruncF64U"@[1]);
            assert("I64TruncF32S"@[9] != "I64TruncF64U"@[9]);
            assert("I64TruncF32U"@[9] != "I64TruncF64U"@[9]);
            assert("I64TruncF64S"@[11] != "I64TruncF64U"@[11]);
        },
        Op::F32ConvertI32S => {},
        Op::F32ConvertI32U => {
            assert("F32ConvertI32S"@[13] != "F32ConvertI32U"@[13]);
        },
        Op::F32ConvertI64S => {
            assert("F32ConvertI32S"@[11] != "F32ConvertI64S"@[11]);
            assert("F32ConvertI32U"@[11] != "F32ConvertI64S"@[11]);
        },
        Op::F32ConvertI64U => {
            assert("F32ConvertI32S"@[11] != "F32ConvertI64U"@[11]);
            assert("F32ConvertI32U"@[11] != "F32ConvertI64U"@[11]);
            assert("F32ConvertI64S"@[13] != "F32ConvertI64U"@[13]);
        },
        Op::F32DemoteF64 => {
            assert("CallIndirect"@[0] != "F32DemoteF64"@[0]);
            assert("I32TruncF32S"@[0] != "F32DemoteF64"@[0]);
            assert("I32TruncF32U"@[0] != "F32DemoteF64"@[0]);
            assert("I32TruncF64S"@[0] != "F32DemoteF64"@[0]);
            assert("I32TruncF64U"@[0] != "F32DemoteF64"@[0]);
            assert("I64TruncF32S"@[0] != "F32DemoteF64"@[0]);
            assert("I64TruncF32U"@[0] != "F32DemoteF64"@[0]);
            assert("I64TruncF64S"@[0] != "F32DemoteF64"@[0]);
            assert("I64TruncF64U"@[0] != "F32DemoteF64"@[0]);
        },
        Op::F64ConvertI32S => {
            assert("F32ConvertI32S"@[1] != "F64ConvertI32S"@[1]);
            assert("F32ConvertI32U"@[1] != "F64ConvertI32S"@[1]);
            assert("F32ConvertI64S"@[1] != "F64ConvertI32S"@[1]);
            assert("F32ConvertI64U"@[1] != "F64ConvertI32S"@[1]);
        },
        Op::F64ConvertI32U => {
            assert("F32ConvertI32S"@[1] != "F64ConvertI32U"@[1]);
            assert("F32ConvertI32U"@[1] != "F64ConvertI32U"@[1]);
            assert("F32ConvertI64S"@[1] != "F64ConvertI32U"@[1]);
            assert("F32ConvertI64U"@[1] != "F64ConvertI32U"@[1]);
            assert("F64ConvertI32S"@[13] != "F64ConvertI32U"@[13]);
        },
        Op::F64ConvertI64S => {
            assert("F32ConvertI32S"@[1] != "F64ConvertI64S"@[1]);
            assert("F32ConvertI32U"@[1] != "F64ConvertI64S"@[1]);
            assert("F32ConvertI64S"@[1] != "F64ConvertI64S"@[1]);
            assert("F32ConvertI64U"@[1] != "F64ConvertI64S"@[1]);
            assert("F64ConvertI32S"@[11] != "F64ConvertI64S"@[11]);
            assert("F64ConvertI32U"@[11] != "F64ConvertI64S"@[11]);
        },
        Op::F64ConvertI64U => {
            assert("F32ConvertI32S"@[1] != "F64ConvertI64U"@[1]);
            assert("F32ConvertI32U"@[1] != "F64ConvertI64U"@[1]);
            assert("F32ConvertI64S"@[1] != "F64ConvertI64U"@[1]);
            assert("F32ConvertI64U"@[1] != "F64ConvertI64U"@[1]);
            assert("F64ConvertI32S"@[11] != "F64ConvertI64U"@[11]);
            assert("F64ConvertI32U"@[11] != "F64ConvertI64U"@[11]);
            assert("F64ConvertI64S"@[13] != "F64ConvertI64U"@[13]);
        },
        Op::F64PromoteF32 => {
            assert("I64ExtendI32S"@[0] != "F64PromoteF32"@[0]);
            assert("I64ExtendI32U"@[0] != "F64PromoteF32"@[0]);
        },
        Op::I32ReinterpretF32 => {},
        Op::I64ReinterpretF64 => {
            assert("I32ReinterpretF32"@[1] != "I64ReinterpretF64"@[1]);
        },
        Op::F32ReinterpretI32 => {
            assert("I32ReinterpretF32"@[0] != "F32ReinterpretI32"@[0]);
            assert("I64ReinterpretF64"@[0] != "F32ReinterpretI32"@[0]);
        },
        Op::F64ReinterpretI64 => {
            assert("I32ReinterpretF32"@[0] != "F64ReinterpretI64"@[0]);
            assert("I64ReinterpretF64"@[0] != "F64ReinterpretI64"@[0]);
            assert("F32ReinterpretI32"@[1] != "F64ReinterpretI64"@[1]);
        },
        Op::I32Extend8S => {
            assert("Unreachable"@[0] != "I32Extend8S"@[0]);
            assert("F32Copysign"@[0] != "I32Extend8S"@[0]);
            assert("F64Copysign"@[0] != "I32Extend8S"@[0]);
        },
        Op::I32Extend16S => {
            assert("CallIndirect"@[0] != "I32Extend16S"@[0]);
            assert("I32TruncF32S"@[3] != "I32Extend16S"@[3]);
            assert("I32TruncF32U"@[3] != "I32Extend16S"@[3]);
            assert("I32TruncF64S"@[3] != "I32Extend16S"@[3]);
            assert("I32TruncF64U"@[3] != "I32Extend16S"@[3]);
            assert("I64TruncF32S"@[1] != "I32Extend16S"@[1]);
            assert("I64TruncF32U"@[1] != "I32Extend16S"@[1]);
            assert("I64TruncF64S"@[1] != "I32Extend16S"@[1]);
            assert("I64TruncF64U"@[1] != "I32Extend16S"@[1]);
            assert("F32DemoteF64"@[0] != "I32Extend16S"@[0]);
        },
        Op::I64Extend8S => {
            assert("Unreachable"@[0] != "I64Extend8S"@[0]);
            assert("F32Copysign"@[0] != "I64Extend8S"@[0]);
            assert("F64Copysign"@[0] != "I64Extend8S"@[0]);
            assert("I32Extend8S"@[1] != "I64Extend8S"@[1]);
        },
        Op::I64Extend16S => {
            assert("CallIndirect"@[0] != "I64Extend16S"@[0]);
            assert("I32TruncF32S"@[1] != "I64Extend16S"@[1]);
            assert("I32TruncF32U"@[1] != "I64Extend16S"@[1]);
            assert("I32TruncF64S"@[1] != "I64Extend16S"@[1]);
            assert("I32TruncF64U"@[1] != "I64Extend16S"@[1]);
            assert("I64TruncF32S"@[3] != "I64Extend16S"@[3]);
            assert("I64TruncF32U"@[3] != "I64Extend16S"@[3]);
            assert("I64TruncF64S"@[3] != "I64Extend16S"@[3]);
            assert("I64TruncF64U"@[3] != "I64Extend16S"@[3]);
            assert("F32DemoteF64"@[0] != "I64Extend16S"@[0]);
            assert("I32Extend16S"@[1] != "I64Extend16S"@[1]);
        },
        Op::I64Extend32S => {
            assert("CallIndirect"@[0] != "I64Extend32S"@[0]);
            assert("I32TruncF32S"@[1] != "I64Extend32S"@[1]);
            assert("I32TruncF32U"@[1] != "I64Extend32S"@[1]);
            assert("I32TruncF64S"@[1] != "I64Extend32S"@[1]);
            assert("I32TruncF64U"@[1] != "I64Extend32S"@[1]);
            assert("I64TruncF32S"@[3] != "I64Extend32S"@[3]);
            assert("I64TruncF32U"@[3] != "I64Extend32S"@[3]);
            assert("I64TruncF64S"@[3] != "I64Extend32S"@[3]);
            assert("I64TruncF64U"@[3] != "I64Extend32S"@[3]);
            assert("F32DemoteF64"@[0] != "I64Extend32S"@[0]);
            assert("I32Extend16S"@[1] != "I64Extend32S"@[1]);
            assert("I64Extend16S"@[9] != "I64Extend32S"@[9]);
        },
        Op::MemoryInit => {
            assert("I32Load16S"@[0] != "MemoryInit"@[0]);
            assert("I32Load16U"@[0] != "MemoryInit"@[0]);
            assert("I64Load16S"@[0] != "MemoryInit"@[0]);
            assert("I64Load16U"@[0] != "MemoryInit"@[0]);
            assert("I64Load32S"@[0] != "MemoryInit"@[0]);
            assert("I64Load32U"@[0] != "MemoryInit"@[0]);
            assert("I32Store16"@[0] != "MemoryInit"@[0]);
            assert("I64Store16"@[0] != "MemoryInit"@[0]);
            assert("I64Store32"@[0] != "MemoryInit"@[0]);
            assert("MemorySize"@[6] != "MemoryInit"@[6]);
            assert("MemoryGrow"@[6] != "MemoryInit"@[6]);
            assert("F32Nearest"@[0] != "MemoryInit"@[0]);
            assert("F64Nearest"@[0] != "MemoryInit"@[0]);
            assert("I32WrapI64"@[0] != "MemoryInit"@[0]);
        },
        Op::DataDrop => {
            assert("LocalGet"@[0] != "DataDrop"@[0]);
            assert("LocalSet"@[0] != "DataDrop"@[0]);
            assert("LocalTee"@[0] != "DataDrop"@[0]);
            assert("I32Store"@[0] != "DataDrop"@[0]);
            assert("I64Store"@[0] != "DataDrop"@[0]);
            assert("F32Store"@[0] != "DataDrop"@[0]);
            assert("F64Store"@[0] != "DataDrop"@[0]);
            assert("I32Const"@[0] != "DataDrop"@[0]);
            assert("I64Const"@[0] != "DataDrop"@[0]);
            assert("F32Const"@[0] != "DataDrop"@[0]);
            assert("F64Const"@[0] != "DataDrop"@[0]);
            assert("F32Floor"@[0] != "DataDrop"@[0]);
            assert("F32Trunc"@[0] != "DataDrop"@[0]);
            assert("F64Floor"@[0] != "DataDrop"@[0]);
            assert("F64Trunc"@[0] != "DataDrop"@[0]);
        },
        Op::MemoryCopy => {
            assert("I32Load16S"@[0] != "MemoryCopy"@[0]);
            assert("I32Load16U"@[0] != "MemoryCopy"@[0]);
            assert("I64Load16S"@[0] != "MemoryCopy"@[0]);
            assert("I64Load16U"@[0] != "MemoryCopy"@[0]);
            assert("I64Load32S"@[0] != "MemoryCopy"@[0]);
            assert("I64Load32U"@[0] != "MemoryCopy"@[0]);
            assert("I32Store16"@[0] != "MemoryCopy"@[0]);
            assert("I64Store16"@[0] != "MemoryCopy"@[0]);
            assert("I64Store32"@[0] != "MemoryCopy"@[0]);
            assert("MemorySize"@[6] != "MemoryCopy"@[6]);
            assert("MemoryGrow"@[6] != "MemoryCopy"@[6]);
            assert("F32Nearest"@[0] != "MemoryCopy"@[0]);
            assert("F64Nearest"@[0] != "MemoryCopy"@[0]);
            assert("I32WrapI64"@[0] != "MemoryCopy"@[0]);
            assert("MemoryInit"@[6] != "MemoryCopy"@[6]);
        },
        Op::MemoryFill => {
            assert("I32Load16S"@[0] != "MemoryFill"@[0]);
            assert("I32Load16U"@[0] != "MemoryFill"@[0]);
            assert("I64Load16S"@[0] != "MemoryFill"@[0]);
            assert("I64Load16U"@[0] != "MemoryFill"@[0]);
            assert("I64Load32S"@[0] != "MemoryFill"@[0]);
            assert("I64Load32U"@[0] != "MemoryFill"@[0]);
            assert("I32Store16"@[0] != "MemoryFill"@[0]);
            assert("I64Store16"@[0] != "MemoryFill"@[0]);
            assert("I64Store32"@[0] != "MemoryFill"@[0]);
            assert("MemorySize"@[6] != "MemoryFill"@[6]);
            assert("MemoryGrow"@[6] != "MemoryFill"@[6]);
            assert("F32Nearest"@[0] != "MemoryFill"@[0]);
            assert("F64Nearest"@[0] != "MemoryFill"@[0]);
            assert("I32WrapI64"@[0] != "MemoryFill"@[0]);
            assert("MemoryInit"@[6] != "MemoryFill"@[6]);
            assert("MemoryCopy"@[6] != "MemoryFill"@[6]);
        },
        Op::TypedSelect => {
            assert("Unreachable"@[0] != "TypedSelect"@[0]);
            assert("F32Copysign"@[0] != "TypedSelect"@[0]);
            assert("F64Copysign"@[0] != "TypedSelect"@[0]);
            assert("I32Extend8S"@[0] != "TypedSelect"@[0]);
            assert("I64Extend8S"@[0] != "TypedSelect"@[0]);
        },
        Op::TableGet => {
            assert("LocalGet"@[0] != "TableGet"@[0]);
            assert("LocalSet"@[0] != "TableGet"@[0]);
            assert("LocalTee"@[0] != "TableGet"@[0]);
            assert("I32Store"@[0] != "TableGet"@[0]);
            assert("I64Store"@[0] != "TableGet"@[0]);
            assert("F32Store"@[0] != "TableGet"@[0]);
            assert("F64Store"@[0] != "TableGet"@[0]);
            assert("I32Const"@[0] != "TableGet"@[0]);
            assert("I64Const"@[0] != "TableGet"@[0]);
            assert("F32Const"@[0] != "TableGet"@[0]);
            assert("F64Const"@[0] != "TableGet"@[0]);
            assert("F32Floor"@[0] != "TableGet"@[0]);
            assert("F32Trunc"@[0] != "TableGet"@[0]);
            assert("F64Floor"@[0] != "TableGet"@[0]);
            assert("F64Trunc"@[0] != "TableGet"@[0]);
            assert("DataDrop"@[0] != "TableGet"@[0]);
        },
        Op::TableSet => {
            assert("LocalGet"@[0] != "TableSet"@[0]);
            assert("LocalSet"@[0] != "TableSet"@[0]);
            assert("LocalTee"@[0] != "TableSet"@[0]);
            assert("I32Store"@[0] != "TableSet"@[0]);
            assert("I64Store"@[0] != "TableSet"@[0]);
            assert("F32Store"@[0] != "TableSet"@[0]);
            assert("F64Store"@[0] != "TableSet"@[0]);
            assert("I32Const"@[0] != "TableSet"@[0]);
            assert("I64Const"@[0] != "TableSet"@[0]);
            assert("F32Const"@[0] != "TableSet"@[0]);
            assert("F64Const"@[0] != "TableSet"@[0]);
            assert("F32Floor"@[0] != "TableSet"@[0]);
            assert("F32Trunc"@[0] != "TableSet"@[0]);
            assert("F64Floor"@[0] != "TableSet"@[0]);
            assert("F64Trunc"@[0] != "TableSet"@[0]);
            assert("DataDrop"@[0] != "TableSet"@[0]);
            assert("TableGet"@[5] != "TableSet"@[5]);
        },
        Op::MemoryAtomicNotify => {},
        Op::MemoryAtomicWait32 => {
            assert("MemoryAtomicNotify"@[12] != "MemoryAtomicWait32"@[12]);
        },
        Op::I32AtomicStore => {
            assert("F32ConvertI32S"@[0] != "I32AtomicStore"@[0]);
            assert("F32ConvertI32U"@[0] != "I32AtomicStore"@[0]);
            assert("F32ConvertI64S"@[0] != "I32AtomicStore"@[0]);
            assert("F32ConvertI64U"@[0] != "I32AtomicStore"@[0]);
            assert("F64ConvertI32S"@[0] != "I32AtomicStore"@[0]);
            assert("F64ConvertI32U"@[0] != "I32AtomicStore"@[0]);
            assert("F64ConvertI64S"@[0] != "I32AtomicStore"@[0]);
            assert("F64ConvertI64U"@[0] != "I32AtomicStore"@[0]);
        },
        Op::I32AtomicRmwCmpxchg => {},
        Op::Other => {},
    }
}

/// An `if` removes exactly its i32 condition, whatever its block type, and
/// remembers that block type for the matching `else`.
pub proof fn lemma_if_pops_condition(m: Module, locals: Seq<u8>, bt: BlockTy, s: Seq<u8>, b: BlockTy)
    ensures
        step_stack(m, locals, bt, s.push(1u8), Op::If { blockty: b }) == s,
        s.len() > 0 ==> step_stack(m, locals, bt, s, Op::If { blockty: b }) == s.drop_last(),
        next_blockty(bt, Op::If { blockty: b }) == b,
{
    assert(step_stack(m, locals, bt, s.push(1u8), Op::If { blockty: b }) =~= s);
    assert(s.len() > 0 ==> step_stack(m, locals, bt, s, Op::If { blockty: b }) =~= s.drop_last());
}

/// An `else` undoes the block type of its `if`: for no result it leaves
/// the stack alone, for a single result it removes that result, and for a
/// function type it replaces the results by the parameters.
pub proof fn lemma_else_undoes_blockty(m: Module, locals: Seq<u8>, s: Seq<u8>, v: ValTy, t: u32)
    ensures
        step_stack(m, locals, BlockTy::Empty, s, Op::Else) == s,
        step_stack(m, locals, BlockTy::Type(v), s.push(valty_size(v)), Op::Else) == s,
        step_stack(
            m,
            locals,
            BlockTy::FuncType(t),
            s + valty_sizes(m.types@[t as int].results@),
            Op::Else,
        ) == s + valty_sizes(m.types@[t as int].params@),
        next_blockty(BlockTy::FuncType(t), Op::Else) == BlockTy::FuncType(t),
{
    let results = valty_sizes(m.types@[t as int].results@);
    assert(step_stack(m, locals, BlockTy::Empty, s, Op::Else) =~= s);
    assert(step_stack(m, locals, BlockTy::Type(v), s.push(valty_size(v)), Op::Else) =~= s);
    assert((s + results).take((s + results).len() - m.types@[t as int].results@.len()) =~= s);
}

/// `select` keeps the slot of the first of its two operands (the one it
/// picks when the condition holds), removing the other and the condition.
pub proof fn lemma_select_keeps_operand(m: Module, locals: Seq<u8>, bt: BlockTy, s: Seq<u8>, x: u8, y: u8, c: u8)
    ensures
        step_stack(m, locals, bt, s + seq![x, y, c], Op::Select) == s.push(x),
        step_stack(m, locals, bt, s + seq![x, y, c], Op::TypedSelect) == s.push(x),
{
    assert(step_stack(m, locals, bt, s + seq![x, y, c], Op::Select) =~= s.push(x));
    assert(step_stack(m, locals, bt, s + seq![x, y, c], Op::TypedSelect) =~= s.push(x));
}

/// `table.get` replaces its i32 index by a reference.
pub proof fn lemma_table_get(m: Module, locals: Seq<u8>, bt: BlockTy, s: Seq<u8>)
    ensures
        step_stack(m, locals, bt, s.push(1u8), Op::TableGet) == s.push(255u8),
{
    assert(step_stack(m, locals, bt, s.push(1u8), Op::TableGet) =~= s.push(255u8));
}

/// `memory.atomic.wait32` takes two operands and gives an i32, as the
/// type-stack simulation counts it.
pub proof fn lemma_wait32(m: Module, locals: Seq<u8>, bt: BlockTy, s: Seq<u8>, a: u8, b: u8)
    ensures
        step_stack(m, locals, bt, s + seq![a, b], Op::MemoryAtomicWait32) == s.push(1u8),
{
    assert(step_stack(m, locals, bt, s + seq![a, b], Op::MemoryAtomicWait32) =~= s.push(1u8));
}

/// No operands and no results.
pub open spec fn no_operands() -> (Seq<WasmType>, Seq<WasmType>) {
    (Seq::empty(), Seq::empty())
}

/// No operands and one result.
pub open spec fn nullary(r: WasmType) -> (Seq<WasmType>, Seq<WasmType>) {
    (Seq::empty(), seq![r])
}

/// One operand and one result.
pub open spec fn unary(a: WasmType, r: WasmType) -> (Seq<WasmType>, Seq<WasmType>) {
    (seq![a], seq![r])
}

/// Two operands of one type and one result.
pub open spec fn binary(a: WasmType, r: WasmType) -> (Seq<WasmType>, Seq<WasmType>) {
    (seq![a, a], seq![r])
}

/// The signature of every operator: numeric operators take and give the
/// types of their WebAssembly instruction (comparisons give an i32; the
/// f32 and f64 comparisons and `f32.demote_f64` list operands of the
/// integer type of the same size), loads take an i32 address, stores and
/// bulk-memory operators consume their operands, and the structured-control
/// operators have none.
#[verifier::rlimit(100)]
pub proof fn lemma_signatures(m: Module, local_types: Seq<WasmType>, op: Op)
    ensures
        (op is Unreachable || op is Nop || op is Block || op is Loop || op is If
            || op is Else || op is End || op is Br || op is Return || op is LocalTee
            || op is DataDrop)
            ==> op_signature(m, local_types, op) == no_operands(),
        (op is BrIf || op is BrTable)
            ==> op_signature(m, local_types, op) == (seq![WasmType::I32], Seq::<WasmType>::empty()),
        (op is Drop || op is LocalSet || op is GlobalSet)
            ==> op_signature(m, local_types, op) == (seq![WasmType::Any], Seq::<WasmType>::empty()),
        (op is Select || op is TypedSelect)
            ==> op_signature(m, local_types, op) == (seq![WasmType::Any, WasmType::Any, WasmType::I32], seq![WasmType::Any]),
        (op is I32Load || op is I32Load8S || op is I32Load8U || op is I32Load16S
            || op is I32Load16U || op is MemoryGrow || op is I32Eqz || op is I32Clz
            || op is I32Ctz || op is I32Popcnt || op is I32Extend8S || op is I32Extend16S)
            ==> op_signature(m, local_types, op) == unary(WasmType::I32, WasmType::I32),
        (op is I64Load || op is I64Load8S || op is I64Load8U || op is I64Load16S
            || op is I64Load16U || op is I64Load32S || op is I64Load32U || op is I64ExtendI32S
            || op is I64ExtendI32U)
            ==> op_signature(m, local_types, op) == unary(WasmType::I32, WasmType::I64),
        (op is F32Load || op is F32ConvertI32S || op is F32ConvertI32U
            || op is F32ReinterpretI32)
            ==> op_signature(m, local_types, op) == unary(WasmType::I32, WasmType::F32),
        (op is F64Load || op is F64ConvertI32S || op is F64ConvertI32U)
            ==> op_signature(m, local_types, op) == unary(WasmType::I32, WasmType::F64),
        (op is I32Store || op is I64Store || op is F32Store || op is F64Store
            || op is I32Store8 || op is I32Store16 || op is I64Store8 || op is I64Store16
            || op is I64Store32)
            ==> op_signature(m, local_types, op) == (seq![WasmType::Any, WasmType::Any], Seq::<WasmType>::empty()),
        (op is MemorySize || op is I32Const)
            ==> op_signature(m, local_types, op) == nullary(WasmType::I32),
        (op is I64Const)
            ==> op_signature(m, local_types, op) == nullary(WasmType::I64),
        (op is F32Const)
            ==> op_signature(m, local_types, op) == nullary(WasmType::F32),
        (op is F64Const)
            ==> op_signature(m, local_types, op) == nullary(WasmType::F64),
        (op is I32Eq || op is I32Ne || op is I32LtS || op is I32LtU || op is I32GtS
            || op is I32GtU || op is I32LeS || op is I32LeU || op is I32GeS || op is I32GeU
            || op is F32Eq || op is F32Ne || op is F32Lt || op is F32Gt || op is F32Le
            || op is F32Ge || op is I32Add || op is I32Sub || op is I32Mul || op is I32DivS
            || op is I32DivU || op is I32RemS || op is I32RemU || op is I32And || op is I32Or
            || op is I32Xor || op is I32Shl || op is I32ShrS || op is I32ShrU || op is I32Rotl
            || op is I32Rotr || op is MemoryAtomicNotify)
            ==> op_signature(m, local_types, op) == binary(WasmType::I32, WasmType::I32),
        (op is I64Eqz || op is I32WrapI64)
            ==> op_signature(m, local_types, op) == unary(WasmType::I64, WasmType::I32),
        (op is I64Eq || op is I64Ne || op is I64LtS || op is I64LtU || op is I64GtS
            || op is I64GtU || op is I64LeS || op is I64LeU || op is I64GeS || op is I64GeU
            || op is F64Eq || op is F64Ne || op is F64Lt || op is F64Gt || op is F64Le
            || op is F64Ge)
            ==> op_signature(m, local_types, op) == binary(WasmType::I64, WasmType::I32),
        (op is I64Clz || op is I64Ctz || op is I64Popcnt || op is I64Extend8S
            || op is I64Extend16S || op is I64Extend32S)
            ==> op_signature(m, local_types, op) == unary(WasmType::I64, WasmType::I64),
        (op is I64Add || op is I64Sub || op is I64Mul || op is I64DivS || op is I64DivU
            || op is I64RemS || op is I64RemU || op is I64And || op is I64Or || op is I64Xor
            || op is I64Shl || op is I64ShrS || op is I64ShrU || op is I64Rotl || op is I64Rotr)
            ==> op_signature(m, local_types, op) == binary(WasmType::I64, WasmType::I64),
        (op is F32Abs || op is F32Neg || op is F32Ceil || op is F32Floor || op is F32Trunc
            || op is F32Nearest || op is F32Sqrt)
            ==> op_signature(m, local_types, op) == unary(WasmType::F32, WasmType::F32),
        (op is F32Add || op is F32Sub || op is F32Mul || op is F32Div || op is F32Min
            || op is F32Max || op is F32Copysign)
            ==> op_signature(m, local_types, op) == binary(WasmType::F32, WasmType::F32),
        (op is F64Abs || op is F64Neg || op is F64Ceil || op is F64Floor || op is F64Trunc
            || op is F64Nearest || op is F64Sqrt)
            ==> op_signature(m, local_types, op) == unary(WasmType::F64, WasmType::F64),
        (op is F64Add || op is F64Sub || op is F64Mul || op is F64Div || op is F64Min
            || op is F64Max || op is F64Copysign)
            ==> op_signature(m, local_types, op) == binary(WasmType::F64, WasmType::F64),
        (op is I32TruncF32S || op is I32TruncF32U || op is I32ReinterpretF32)
            ==> op_signature(m, local_types, op) == unary(WasmType::F32, WasmType::I32),
        (op is I32TruncF64S || op is I32TruncF64U)
            ==> op_signature(m, local_types, op) == unary(WasmType::F64, WasmType::I32),
        (op is I64TruncF32S || op is I64TruncF32U)
            ==> op_signature(m, local_types, op) == unary(WasmType::F32, WasmType::I64),
        (op is I64TruncF64S || op is I64TruncF64U || op is I64ReinterpretF64)
            ==> op_signature(m, local_types, op) == unary(WasmType::F64, WasmType::I64),
        (op is F32ConvertI64S || op is F32ConvertI64U || op is F32DemoteF64)
            ==> op_signature(m, local_types, op) == unary(WasmType::I64, WasmType::F32),
        (op is F64ConvertI64S || op is F64ConvertI64U || op is F64ReinterpretI64)
            ==> op_signature(m, local_types, op) == unary(WasmType::I64, WasmType::F64),
        (op is F64PromoteF32)
            ==> op_signature(m, local_types, op) == unary(WasmType::F32, WasmType::F64),
        (op is MemoryInit || op is MemoryCopy || op is MemoryFill)
            ==> op_signature(m, local_types, op) == (seq![WasmType::I32, WasmType::I32, WasmType::I32], Seq::<WasmType>::empty()),
        (op is TableSet)
            ==> op_signature(m, local_types, op) == (seq![WasmType::I32, WasmType::Any], Seq::<WasmType>::empty()),
        (op is MemoryAtomicWait32)
            ==> op_signature(m, local_types, op) == (seq![WasmType::I32, WasmType::I32, WasmType::I64], seq![WasmType::I32]),
        (op is I32AtomicStore)
            ==> op_signature(m, local_types, op) == (seq![WasmType::I32, WasmType::I32], Seq::<WasmType>::empty()),
        (op is I32AtomicRmwCmpxchg)
            ==> op_signature(m, local_types, op) == (seq![WasmType::I32, WasmType::I32, WasmType::I32], seq![WasmType::I32]),
        op is Call ==> op_signature(m, local_types, op) == (
            valty_wasmtypes(m.spec_func_type(op->function_index as int).params@),
            valty_wasmtypes(m.spec_func_type(op->function_index as int).results@),
        ),
        op is CallIndirect ==> op_signature(m, local_types, op) == (
            valty_wasmtypes(m.types@[op->type_index as int].params@).push(WasmType::I32),
            valty_wasmtypes(m.types@[op->type_index as int].results@),
        ),
        op is LocalGet ==> op_signature(m, local_types, op) == nullary(local_types[op->local_index as int]),
        op is GlobalGet ==> op_signature(m, local_types, op) == nullary(
            valty_wasmtype(m.globals@[op->global_index as int]),
        ),
{
}

/// The index check accepts exactly the indices that exist: a called
/// function and its type, an indirectly called type, a local and a global.
pub proof fn lemma_refs_exact(m: Module, num_locals: nat, op: Op)
    ensures
        op is Call ==> (op_refs_ok(m, num_locals, op) <==> op->function_index < m.funcs@.len()
            && m.funcs@[op->function_index as int] < m.types@.len()),
        op is CallIndirect ==> (op_refs_ok(m, num_locals, op) <==> op->type_index < m.types@.len()),
        op is LocalGet ==> (op_refs_ok(m, num_locals, op) <==> op->local_index < num_locals),
        op is GlobalGet ==> (op_refs_ok(m, num_locals, op) <==> op->global_index < m.globals@.len()),
        !(op is Call || op is CallIndirect || op is LocalGet || op is GlobalGet) ==> op_refs_ok(
            m,
            num_locals,
            op,
        ),
{
}

/// A block type that names a function type names one of the module.
pub open spec fn blockty_exists(m: Module, b: BlockTy) -> bool {
    b matches BlockTy::FuncType(t) ==> t < m.types@.len()
}

/// When the starting block type and the block type of every `if` exist,
/// so does the block type that an `else` finds.
proof fn lemma_run_blockty_exists(m: Module, locals: Seq<u8>, bt0: BlockTy, ops: Seq<Op>)
    requires
        blockty_exists(m, bt0),
        forall|i: int| 0 <= i < ops.len() && (#[trigger] ops[i] is If) ==> blockty_exists(m, ops[i]->blockty),
    ensures
        blockty_ok(m, run(m, locals, bt0, ops).1),
    decreases ops.len(),
{
    if ops.len() > 0 {
        let prev = ops.drop_last();
        assert forall|i: int| 0 <= i < prev.len() && (#[trigger] prev[i] is If) implies blockty_exists(m, prev[i]->blockty) by {
            assert(ops[i] == prev[i]);
        }
        lemma_run_blockty_exists(m, locals, bt0, prev);
        if ops.last() is If {
            assert(ops[ops.len() - 1] is If);
        }
    }
}

/// `construct` succeeds on every body that reads to its end and whose
/// operators refer only to what exists: called functions and their types,
/// indirectly called types, locals, globals, and the function types named
/// by the starting block type and by each `if`.
pub proof fn lemma_construct_accepts_existing_indices(
    f: BytecodeFunction,
    g: BytecodeFunction,
    r: Result<(), String>,
    base: u64,
    listing: Seq<(Seq<char>, u64)>,
    ops: Seq<DecodedOp>,
)
    requires
        construct_outcome(f, g, r),
        body_end(f) <= u64::MAX,
        spec_read_operators(f.func_body@, f.body_offset) matches Ok((b, l, None)) && b == base && l == listing,
        ops == decode_ops(listing, body_end(f) as u64),
        blockty_exists(f.module, f.else_blockty),
        forall|i: int|
            0 <= i < ops.len() ==> {
                let op = #[trigger] ops[i].op;
                &&& op is Call ==> op->function_index < f.module.funcs@.len()
                    && f.module.funcs@[op->function_index as int] < f.module.types@.len()
                &&& op is CallIndirect ==> op->type_index < f.module.types@.len()
                &&& op is LocalGet ==> op->local_index < f.locals@.len()
                &&& op is GlobalGet ==> op->global_index < f.module.globals@.len()
                &&& op is If ==> blockty_exists(f.module, op->blockty)
                &&& rel_offset(ops[i].position, base) >= 0
            },
    ensures
        r is Ok,
{
    let m = f.module;
    let os = op_seq(ops);
    assert forall|i: int| 0 <= i < ops.len() implies op_refs_ok(m, f.locals@.len(), #[trigger] ops[i].op) by {
        lemma_refs_exact(m, f.locals@.len(), ops[i].op);
    }
    assert forall|i: int|
        0 <= i < ops.len() && (#[trigger] ops[i].op is Else) implies blockty_ok(
        m,
        run(m, f.locals@, f.else_blockty, op_seq(ops).take(i)).1,
    ) by {
        let pre = os.take(i);
        assert forall|j: int| 0 <= j < pre.len() && (#[trigger] pre[j] is If) implies blockty_exists(m, pre[j]->blockty) by {
            assert(pre[j] == ops[j].op);
        }
        lemma_run_blockty_exists(m, f.locals@, f.else_blockty, pre);
    }
    assert forall|i: int| 0 <= i < ops.len() implies rel_offset(#[trigger] ops[i].position, base) >= 0 by {
        let op = ops[i].op;
    }
    assert(ops_valid(m, f.locals@, f.else_blockty, ops, base));
}

/// The return size recorded for a call is the number of results in the
/// called function's signature; no other operator records one.
pub proof fn lemma_callee_return_size(m: Module, local_types: Seq<WasmType>, op: Op)
    requires
        op is Call ==> op_signature(m, local_types, op).1.len() <= u32::MAX,
    ensures
        op is Call ==> callee_return_size(m, op) == op_signature(m, local_types, op).1.len(),
        !(op is Call) ==> callee_return_size(m, op) == 0,
{
}

} // verus!
