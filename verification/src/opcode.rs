use vstd::prelude::*;

use crate::function::BytecodeFunction;
use crate::module::Module;
use crate::op::Op;
use crate::types::{valtype_to_wasmtype, valty_wasmtype, valty_wasmtypes, ValTy, WasmType};

verus! {

/// The operand types an operator consumes (`input`, deepest first) and the
/// result types it produces (`output`).
#[derive(Debug)]
pub struct OpInfo {
    pub input: Vec<WasmType>,
    pub output: Vec<WasmType>,
}

/// The operators that have a signature: all handled operators but
/// `table.get`.
pub open spec fn has_signature(op: Op) -> bool {
    !(op is TableGet) && !(op is Other)
}

/// The signature of an operator: its operand types and its result types.
pub open spec fn op_signature(m: Module, local_types: Seq<WasmType>, op: Op) -> (Seq<WasmType>, Seq<WasmType>) {
    match op {
        Op::Call { function_index } => (
            valty_wasmtypes(m.spec_func_type(function_index as int).params@),
            valty_wasmtypes(m.spec_func_type(function_index as int).results@),
        ),
        Op::CallIndirect { type_index } => (
            valty_wasmtypes(m.types@[type_index as int].params@).push(WasmType::I32),
            valty_wasmtypes(m.types@[type_index as int].results@),
        ),
        Op::LocalGet { local_index } => (Seq::empty(), seq![local_types[local_index as int]]),
        Op::GlobalGet { global_index } => (
            Seq::empty(),
            seq![valty_wasmtype(m.globals@[global_index as int])],
        ),
        Op::Unreachable | Op::Nop | Op::Block | Op::Loop | Op::If { .. } | Op::Else | Op::End
        | Op::Br | Op::Return | Op::LocalTee | Op::DataDrop => (Seq::empty(), Seq::empty()),
        Op::BrIf | Op::BrTable => (seq![WasmType::I32], Seq::empty()),
        Op::Drop | Op::LocalSet | Op::GlobalSet => (seq![WasmType::Any], Seq::empty()),
        Op::Select | Op::TypedSelect => (seq![WasmType::Any, WasmType::Any, WasmType::I32], seq![WasmType::Any]),
        Op::I32Load | Op::I32Load8S | Op::I32Load8U | Op::I32Load16S | Op::I32Load16U
        | Op::MemoryGrow | Op::I32Eqz | Op::I32Clz | Op::I32Ctz | Op::I32Popcnt
        | Op::I32Extend8S | Op::I32Extend16S => (seq![WasmType::I32], seq![WasmType::I32]),
        Op::I64Load | Op::I64Load8S | Op::I64Load8U | Op::I64Load16S | Op::I64Load16U
        | Op::I64Load32S | Op::I64Load32U | Op::I64ExtendI32S | Op::I64ExtendI32U => (seq![WasmType::I32], seq![WasmType::I64]),
        Op::F32Load | Op::F32ConvertI32S | Op::F32ConvertI32U | Op::F32ReinterpretI32 => (seq![WasmType::I32], seq![WasmType::F32]),
        Op::F64Load | Op::F64ConvertI32S | Op::F64ConvertI32U => (seq![WasmType::I32], seq![WasmType::F64]),
        Op::I32Store | Op::I64Store | Op::F32Store | Op::F64Store | Op::I32Store8
        | Op::I32Store16 | Op::I64Store8 | Op::I64Store16 | Op::I64Store32 => (seq![WasmType::Any, WasmType::Any], Seq::empty()),
        Op::MemorySize | Op::I32Const => (Seq::empty(), seq![WasmType::I32]),
        Op::I64Const => (Seq::empty(), seq![WasmType::I64]),
        Op::F32Const => (Seq::empty(), seq![WasmType::F32]),
        Op::F64Const => (Seq::empty(), seq![WasmType::F64]),
        Op::I32Eq | Op::I32Ne | Op::I32LtS | Op::I32LtU | Op::I32GtS | Op::I32GtU
        | Op::I32LeS | Op::I32LeU | Op::I32GeS | Op::I32GeU | Op::F32Eq | Op::F32Ne
        | Op::F32Lt | Op::F32Gt | Op::F32Le | Op::F32Ge | Op::I32Add | Op::I32Sub
        | Op::I32Mul | Op::I32DivS | Op::I32DivU | Op::I32RemS | Op::I32RemU
        | Op::I32And | Op::I32Or | Op::I32Xor | Op::I32Shl | Op::I32ShrS | Op::I32ShrU
        | Op::I32Rotl | Op::I32Rotr | Op::MemoryAtomicNotify => (seq![WasmType::I32, WasmType::I32], seq![WasmType::I32]),
        Op::I64Eqz | Op::I32WrapI64 => (seq![WasmType::I64], seq![WasmType::I32]),
        Op::I64Eq | Op::I64Ne | Op::I64LtS | Op::I64LtU | Op::I64GtS | Op::I64GtU
        | Op::I64LeS | Op::I64LeU | Op::I64GeS | Op::I64GeU | Op::F64Eq | Op::F64Ne
        | Op::F64Lt | Op::F64Gt | Op::F64Le | Op::F64Ge => (seq![WasmType::I64, WasmType::I64], seq![WasmType::I32]),
        Op::I64Clz | Op::I64Ctz | Op::I64Popcnt | Op::I64Extend8S | Op::I64Extend16S
        | Op::I64Extend32S => (seq![WasmType::I64], seq![WasmType::I64]),
        Op::I64Add | Op::I64Sub | Op::I64Mul | Op::I64DivS | Op::I64DivU | Op::I64RemS
        | Op::I64RemU | Op::I64And | Op::I64Or | Op::I64Xor | Op::I64Shl | Op::I64ShrS
        | Op::I64ShrU | Op::I64Rotl | Op::I64Rotr => (seq![WasmType::I64, WasmType::I64], seq![WasmType::I64]),
        Op::F32Abs | Op::F32Neg | Op::F32Ceil | Op::F32Floor | Op::F32Trunc
        | Op::F32Nearest | Op::F32Sqrt => (seq![WasmType::F32], seq![WasmType::F32]),
        Op::F32Add | Op::F32Sub | Op::F32Mul | Op::F32Div | Op::F32Min | Op::F32Max
        | Op::F32Copysign => (seq![WasmType::F32, WasmType::F32], seq![WasmType::F32]),
        Op::F64Abs | Op::F64Neg | Op::F64Ceil | Op::F64Floor | Op::F64Trunc
        | Op::F64Nearest | Op::F64Sqrt => (seq![WasmType::F64], seq![WasmType::F64]),
        Op::F64Add | Op::F64Sub | Op::F64Mul | Op::F64Div | Op::F64Min | Op::F64Max
        | Op::F64Copysign => (seq![WasmType::F64, WasmType::F64], seq![WasmType::F64]),
        Op::I32TruncF32S | Op::I32TruncF32U | Op::I32ReinterpretF32 => (seq![WasmType::F32], seq![WasmType::I32]),
        Op::I32TruncF64S | Op::I32TruncF64U => (seq![WasmType::F64], seq![WasmType::I32]),
        Op::I64TruncF32S | Op::I64TruncF32U => (seq![WasmType::F32], seq![WasmType::I64]),
        Op::I64TruncF64S | Op::I64TruncF64U | Op::I64ReinterpretF64 => (seq![WasmType::F64], seq![WasmType::I64]),
        Op::F32ConvertI64S | Op::F32ConvertI64U | Op::F32DemoteF64 => (seq![WasmType::I64], seq![WasmType::F32]),
        Op::F64ConvertI64S | Op::F64ConvertI64U | Op::F64ReinterpretI64 => (seq![WasmType::I64], seq![WasmType::F64]),
        Op::F64PromoteF32 => (seq![WasmType::F32], seq![WasmType::F64]),
        Op::MemoryInit | Op::MemoryCopy | Op::MemoryFill => (seq![WasmType::I32, WasmType::I32, WasmType::I32], Seq::empty()),
        Op::TableSet => (seq![WasmType::I32, WasmType::Any], Seq::empty()),
        Op::MemoryAtomicWait32 => (seq![WasmType::I32, WasmType::I32, WasmType::I64], seq![WasmType::I32]),
        Op::I32AtomicStore => (seq![WasmType::I32, WasmType::I32], Seq::empty()),
        Op::I32AtomicRmwCmpxchg => (seq![WasmType::I32, WasmType::I32, WasmType::I32], seq![WasmType::I32]),
        Op::TableGet | Op::Other => (Seq::empty(), Seq::empty()),
    }
}

/// The indices that `op` carries refer to existing functions, types,
/// local types and globals.
pub open spec fn signature_refs_ok(m: Module, num_local_types: nat, op: Op) -> bool {
    match op {
        Op::Call { function_index } => m.func_ok(function_index as int),
        Op::CallIndirect { type_index } => type_index < m.types@.len(),
        Op::LocalGet { local_index } => local_index < num_local_types,
        Op::GlobalGet { global_index } => global_index < m.globals@.len(),
        _ => true,
    }
}

/// The operand types of `ts`.
fn wasmtypes_of(ts: &Vec<ValTy>) -> (r: Vec<WasmType>)
    ensures
        r@ == valty_wasmtypes(ts@),
{
    let mut r: Vec<WasmType> = Vec::new();
    let mut i: usize = 0;
    while i < ts.len()
        invariant
            i <= ts@.len(),
            r@ == valty_wasmtypes(ts@.take(i as int)),
        decreases ts@.len() - i,
    {
        r.push(valtype_to_wasmtype(&ts[i]));
        assert(ts@.take(i + 1) =~= ts@.take(i as int).push(ts@[i as int]));
        assert(valty_wasmtypes(ts@.take(i + 1)) =~= valty_wasmtypes(ts@.take(i as int)).push(
            valty_wasmtype(ts@[i as int]),
        ));
        i = i + 1;
    }
    assert(ts@.take(ts@.len() as int) =~= ts@);
    r
}

impl BytecodeFunction {
    /// The operand type of local `local_index`.
    pub fn get_type_by_local(&self, local_index: u32) -> (r: &WasmType)
        requires
            local_index < self.local_types@.len(),
        ensures
            *r == self.local_types@[local_index as int],
    {
        &self.local_types[local_index as usize]
    }

    /// The signature of `op`, as `op_signature` gives it.
    pub fn opinfo(&self, op: &Op) -> (r: OpInfo)
        requires
            has_signature(*op),
            signature_refs_ok(self.module, self.local_types@.len(), *op),
        ensures
            r.input@ == op_signature(self.module, self.local_types@, *op).0,
            r.output@ == op_signature(self.module, self.local_types@, *op).1,
    {
        match op {
            Op::Call { function_index } => {
                // [Args*] -> [Rets*]
                let f = self.module.get_type_by_func(*function_index);
                let i = wasmtypes_of(&f.params);
                let o = wasmtypes_of(&f.results);
                return OpInfo { input: i, output: o };
            },
            Op::CallIndirect { type_index } => {
                // [Args*, I32] -> [Rets*]
                let f = self.module.get_type_by_type(*type_index);
                let mut i = wasmtypes_of(&f.params);
                i.push(WasmType::I32);
                let o = wasmtypes_of(&f.results);
                return OpInfo { input: i, output: o };
            },
            Op::LocalGet { local_index } => {
                // [] -> [type of the local]
                let local_type = self.get_type_by_local(*local_index);
                return OpInfo { input: Vec::new(), output: vec![*local_type] };
            },
            Op::GlobalGet { global_index } => {
                // [] -> [type of the global]
                let global_type = self.module.get_type_by_global(*global_index);
                return OpInfo { input: Vec::new(), output: vec![valtype_to_wasmtype(global_type)] };
            },
            Op::Unreachable | Op::Nop | Op::Block | Op::Loop | Op::If { .. } | Op::Else | Op::End
            | Op::Br | Op::Return | Op::LocalTee | Op::DataDrop => {
                return OpInfo { input: Vec::new(), output: Vec::new() };
            },
            Op::BrIf | Op::BrTable => {
                return OpInfo { input: vec![WasmType::I32], output: Vec::new() };
            },
            Op::Drop | Op::LocalSet | Op::GlobalSet => {
                return OpInfo { input: vec![WasmType::Any], output: Vec::new() };
            },
            Op::Select | Op::TypedSelect => {
                return OpInfo { input: vec![WasmType::Any, WasmType::Any, WasmType::I32], output: vec![WasmType::Any] };
            },
            Op::I32Load | Op::I32Load8S | Op::I32Load8U | Op::I32Load16S | Op::I32Load16U
            | Op::MemoryGrow | Op::I32Eqz | Op::I32Clz | Op::I32Ctz | Op::I32Popcnt
            | Op::I32Extend8S | Op::I32Extend16S => {
                return OpInfo { input: vec![WasmType::I32], output: vec![WasmType::I32] };
            },
            Op::I64Load | Op::I64Load8S | Op::I64Load8U | Op::I64Load16S | Op::I64Load16U
            | Op::I64Load32S | Op::I64Load32U | Op::I64ExtendI32S | Op::I64ExtendI32U => {
                return OpInfo { input: vec![WasmType::I32], output: vec![WasmType::I64] };
            },
            Op::F32Load | Op::F32ConvertI32S | Op::F32ConvertI32U | Op::F32ReinterpretI32 => {
                return OpInfo { input: vec![WasmType::I32], output: vec![WasmType::F32] };
            },
            Op::F64Load | Op::F64ConvertI32S | Op::F64ConvertI32U => {
                return OpInfo { input: vec![WasmType::I32], output: vec![WasmType::F64] };
            },
            Op::I32Store | Op::I64Store | Op::F32Store | Op::F64Store | Op::I32Store8
            | Op::I32Store16 | Op::I64Store8 | Op::I64Store16 | Op::I64Store32 => {
                return OpInfo { input: vec![WasmType::Any, WasmType::Any], output: Vec::new() };
            },
            Op::MemorySize | Op::I32Const => {
                return OpInfo { input: Vec::new(), output: vec![WasmType::I32] };
            },
            Op::I64Const => {
                return OpInfo { input: Vec::new(), output: vec![WasmType::I64] };
            },
            Op::F32Const => {
                return OpInfo { input: Vec::new(), output: vec![WasmType::F32] };
            },
            Op::F64Const => {
                return OpInfo { input: Vec::new(), output: vec![WasmType::F64] };
            },
            Op::I32Eq | Op::I32Ne | Op::I32LtS | Op::I32LtU | Op::I32GtS | Op::I32GtU
            | Op::I32LeS | Op::I32LeU | Op::I32GeS | Op::I32GeU | Op::F32Eq | Op::F32Ne
            | Op::F32Lt | Op::F32Gt | Op::F32Le | Op::F32Ge | Op::I32Add | Op::I32Sub
            | Op::I32Mul | Op::I32DivS | Op::I32DivU | Op::I32RemS | Op::I32RemU
            | Op::I32And | Op::I32Or | Op::I32Xor | Op::I32Shl | Op::I32ShrS | Op::I32ShrU
            | Op::I32Rotl | Op::I32Rotr | Op::MemoryAtomicNotify => {
                return OpInfo { input: vec![WasmType::I32, WasmType::I32], output: vec![WasmType::I32] };
            },
            Op::I64Eqz | Op::I32WrapI64 => {
                return OpInfo { input: vec![WasmType::I64], output: vec![WasmType::I32] };
            },
            Op::I64Eq | Op::I64Ne | Op::I64LtS | Op::I64LtU | Op::I64GtS | Op::I64GtU
            | Op::I64LeS | Op::I64LeU | Op::I64GeS | Op::I64GeU | Op::F64Eq | Op::F64Ne
            | Op::F64Lt | Op::F64Gt | Op::F64Le | Op::F64Ge => {
                return OpInfo { input: vec![WasmType::I64, WasmType::I64], output: vec![WasmType::I32] };
            },
            Op::I64Clz | Op::I64Ctz | Op::I64Popcnt | Op::I64Extend8S | Op::I64Extend16S
            | Op::I64Extend32S => {
                return OpInfo { input: vec![WasmType::I64], output: vec![WasmType::I64] };
            },
            Op::I64Add | Op::I64Sub | Op::I64Mul | Op::I64DivS | Op::I64DivU | Op::I64RemS
            | Op::I64RemU | Op::I64And | Op::I64Or | Op::I64Xor | Op::I64Shl | Op::I64ShrS
            | Op::I64ShrU | Op::I64Rotl | Op::I64Rotr => {
                return OpInfo { input: vec![WasmType::I64, WasmType::I64], output: vec![WasmType::I64] };
            },
            Op::F32Abs | Op::F32Neg | Op::F32Ceil | Op::F32Floor | Op::F32Trunc
            | Op::F32Nearest | Op::F32Sqrt => {
                return OpInfo { input: vec![WasmType::F32], output: vec![WasmType::F32] };
            },
            Op::F32Add | Op::F32Sub | Op::F32Mul | Op::F32Div | Op::F32Min | Op::F32Max
            | Op::F32Copysign => {
                return OpInfo { input: vec![WasmType::F32, WasmType::F32], output: vec![WasmType::F32] };
            },
            Op::F64Abs | Op::F64Neg | Op::F64Ceil | Op::F64Floor | Op::F64Trunc
            | Op::F64Nearest | Op::F64Sqrt => {
                return OpInfo { input: vec![WasmType::F64], output: vec![WasmType::F64] };
            },
            Op::F64Add | Op::F64Sub | Op::F64Mul | Op::F64Div | Op::F64Min | Op::F64Max
            | Op::F64Copysign => {
                return OpInfo { input: vec![WasmType::F64, WasmType::F64], output: vec![WasmType::F64] };
            },
            Op::I32TruncF32S | Op::I32TruncF32U | Op::I32ReinterpretF32 => {
                return OpInfo { input: vec![WasmType::F32], output: vec![WasmType::I32] };
            },
            Op::I32TruncF64S | Op::I32TruncF64U => {
                return OpInfo { input: vec![WasmType::F64], output: vec![WasmType::I32] };
            },
            Op::I64TruncF32S | Op::I64TruncF32U => {
                return OpInfo { input: vec![WasmType::F32], output: vec![WasmType::I64] };
            },
            Op::I64TruncF64S | Op::I64TruncF64U | Op::I64ReinterpretF64 => {
                return OpInfo { input: vec![WasmType::F64], output: vec![WasmType::I64] };
            },
            Op::F32ConvertI64S | Op::F32ConvertI64U | Op::F32DemoteF64 => {
                return OpInfo { input: vec![WasmType::I64], output: vec![WasmType::F32] };
            },
            Op::F64ConvertI64S | Op::F64ConvertI64U | Op::F64ReinterpretI64 => {
                return OpInfo { input: vec![WasmType::I64], output: vec![WasmType::F64] };
            },
            Op::F64PromoteF32 => {
                return OpInfo { input: vec![WasmType::F32], output: vec![WasmType::F64] };
            },
            Op::MemoryInit | Op::MemoryCopy | Op::MemoryFill => {
                return OpInfo { input: vec![WasmType::I32, WasmType::I32, WasmType::I32], output: Vec::new() };
            },
            Op::TableSet => {
                return OpInfo { input: vec![WasmType::I32, WasmType::Any], output: Vec::new() };
            },
            Op::MemoryAtomicWait32 => {
                return OpInfo { input: vec![WasmType::I32, WasmType::I32, WasmType::I64], output: vec![WasmType::I32] };
            },
            Op::I32AtomicStore => {
                return OpInfo { input: vec![WasmType::I32, WasmType::I32], output: Vec::new() };
            },
            Op::I32AtomicRmwCmpxchg => {
                return OpInfo { input: vec![WasmType::I32, WasmType::I32, WasmType::I32], output: vec![WasmType::I32] };
            },
            Op::TableGet | Op::Other => {
                // excluded by the precondition
                return OpInfo { input: Vec::new(), output: Vec::new() };
            },
        }
    }
}

} // verus!
