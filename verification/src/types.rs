use vstd::prelude::*;

verus! {

/// A WebAssembly value type, as the analysis distinguishes them.
#[derive(Clone, Copy, Debug, PartialEq, Eq, Structural)]
pub enum ValTy {
    I32,
    I64,
    F32,
    F64,
    V128,
    /// Any reference type (`funcref`, `externref`, ...).
    Ref,
}

/// Size, in 32-bit slots, that a value of the given type takes on the
/// type stack; reference types are marked with the sentinel 255.
pub open spec fn valty_size(t: ValTy) -> u8 {
    match t {
        ValTy::I32 | ValTy::F32 => 1,
        ValTy::I64 | ValTy::F64 => 2,
        ValTy::V128 => 4,
        ValTy::Ref => 255,
    }
}

/// The sizes of a sequence of value types.
pub open spec fn valty_sizes(ts: Seq<ValTy>) -> Seq<u8> {
    ts.map_values(|t: ValTy| valty_size(t))
}

pub fn valtype_to_size(valtype: &ValTy) -> (r: u8)
    ensures
        r == valty_size(*valtype),
{
    match valtype {
        ValTy::I32 | ValTy::F32 => 1,
        ValTy::I64 | ValTy::F64 => 2,
        ValTy::V128 => 4,
        ValTy::Ref => 255,
    }
}

/// The type annotation of a structured control instruction.
#[derive(Clone, Copy, Debug, PartialEq, Eq, Structural)]
pub enum BlockTy {
    /// `[] -> []`
    Empty,
    /// `[] -> [t]`
    Type(ValTy),
    /// A function type given by its index in the type section.
    FuncType(u32),
}

/// A function signature: parameter types and result types.
#[derive(Clone, Debug)]
pub struct FuncSig {
    pub params: Vec<ValTy>,
    pub results: Vec<ValTy>,
}

/// Operand types as an operator signature names them; `Any` stands for an
/// operand of any type.
#[derive(Clone, Copy, Debug, PartialEq, Eq, Structural)]
pub enum WasmType {
    I32,
    I64,
    F32,
    F64,
    V128,
    Ref,
    Any,
}

/// The operand type that a value type denotes.
pub open spec fn valty_wasmtype(t: ValTy) -> WasmType {
    match t {
        ValTy::I32 => WasmType::I32,
        ValTy::I64 => WasmType::I64,
        ValTy::F32 => WasmType::F32,
        ValTy::F64 => WasmType::F64,
        ValTy::V128 => WasmType::V128,
        ValTy::Ref => WasmType::Ref,
    }
}

/// The operand types of a sequence of value types.
pub open spec fn valty_wasmtypes(ts: Seq<ValTy>) -> Seq<WasmType> {
    ts.map_values(|t: ValTy| valty_wasmtype(t))
}

pub fn valtype_to_wasmtype(valtype: &ValTy) -> (r: WasmType)
    ensures
        r == valty_wasmtype(*valtype),
{
    match valtype {
        ValTy::I32 => WasmType::I32,
        ValTy::I64 => WasmType::I64,
        ValTy::F32 => WasmType::F32,
        ValTy::F64 => WasmType::F64,
        ValTy::V128 => WasmType::V128,
        ValTy::Ref => WasmType::Ref,
    }
}

/// A stack slot of size `size` can hold an operand of type `t`: `Any`
/// accepts every size, a concrete type accepts exactly its own size.
pub open spec fn slot_fits(size: u8, t: WasmType) -> bool {
    match t {
        WasmType::I32 | WasmType::F32 => size == 1,
        WasmType::I64 | WasmType::F64 => size == 2,
        WasmType::V128 => size == 4,
        WasmType::Ref => size == 255,
        WasmType::Any => true,
    }
}

/// The stack slots `sizes` hold operands of the types `tys`, one for one.
pub open spec fn slots_fit(sizes: Seq<u8>, tys: Seq<WasmType>) -> bool {
    &&& sizes.len() == tys.len()
    &&& forall|i: int| 0 <= i < sizes.len() ==> #[trigger] slot_fits(sizes[i], tys[i])
}

} // verus!
