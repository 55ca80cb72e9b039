use vstd::prelude::*;

use crate::op::Op;
use crate::types::{BlockTy, ValTy};

verus! {

// The text form of an operator is the one its decoder (wasmparser 0.263)
// prints with its derived `Debug`: the operator's name, then, for operators
// with immediates, ` { field: value, ... }` with the fields in declaration
// order; e.g. `Call { function_index: 3 }`, `If { blockty: Type(I32) }`, or
// `CallIndirect { type_index: 1, table_index: 0 }`, whose first immediate is
// the type index.

/// The first index at or after `i` where `t` holds `c`, or `t.len()`.
pub open spec fn scan_to(t: Seq<char>, c: char, i: nat) -> nat
    decreases t.len() - i,
{
    if i >= t.len() || t[i as int] == c {
        i
    } else {
        scan_to(t, c, i + 1)
    }
}

/// `t` holds `lit` starting at index `i`.
pub open spec fn starts_at(t: Seq<char>, i: int, lit: Seq<char>) -> bool {
    &&& 0 <= i
    &&& i + lit.len() <= t.len()
    &&& t.subrange(i, i + lit.len()) == lit
}

/// The name of the operator that `t` shows is `lit`: the text up to its
/// first space is `lit`.
pub open spec fn name_is(t: Seq<char>, lit: Seq<char>) -> bool {
    &&& scan_to(t, ' ', 0) == lit.len()
    &&& starts_at(t, 0, lit)
}

pub open spec fn is_digit(c: char) -> bool {
    '0' <= c <= '9'
}

/// The value of `acc` followed by the decimal digits of `t` from index `i`
/// on, up to the first character that is not a digit.
pub open spec fn digits_value(t: Seq<char>, i: nat, acc: nat) -> nat
    decreases t.len() - i,
{
    if i < t.len() && is_digit(t[i as int]) {
        digits_value(t, i + 1, acc * 10 + (t[i as int] as nat - '0' as nat) as nat)
    } else {
        acc
    }
}

/// The decimal number that starts at index `i` of `t`, if there is one
/// and it fits in a `u32`.
pub open spec fn number_at(t: Seq<char>, i: nat) -> Option<u32> {
    if i < t.len() && is_digit(t[i as int]) && digits_value(t, i, 0) <= u32::MAX {
        Some(digits_value(t, i, 0) as u32)
    } else {
        None
    }
}

/// The first immediate of an operator: the number after the first `: `.
pub open spec fn immediate(t: Seq<char>) -> Option<u32> {
    number_at(t, scan_to(t, ':', 0) + 2)
}

/// The value type shown at index `i`; any other text is a reference type.
pub open spec fn valty_at(t: Seq<char>, i: int) -> ValTy {
    if starts_at(t, i, "I32"@) {
        ValTy::I32
    } else if starts_at(t, i, "I64"@) {
        ValTy::I64
    } else if starts_at(t, i, "F32"@) {
        ValTy::F32
    } else if starts_at(t, i, "F64"@) {
        ValTy::F64
    } else if starts_at(t, i, "V128"@) {
        ValTy::V128
    } else {
        ValTy::Ref
    }
}

/// The block type of an `if`, shown after its first `: `.
pub open spec fn parse_blockty(t: Seq<char>) -> Option<BlockTy> {
    let i: int = (scan_to(t, ':', 0) + 2) as int;
    if starts_at(t, i, "Empty"@) {
        Some(BlockTy::Empty)
    } else if starts_at(t, i, "FuncType("@) {
        match number_at(t, (i + 9) as nat) {
            Some(n) => Some(BlockTy::FuncType(n)),
            None => None,
        }
    } else if starts_at(t, i, "Type("@) {
        Some(BlockTy::Type(valty_at(t, i + 5)))
    } else {
        None
    }
}

/// The operator that the text `t` shows; `Other` for every operator the
/// analysis does not handle, and for text it cannot read.
pub open spec fn op_from_text(t: Seq<char>) -> Op {
    if name_is(t, "Unreachable"@) {
        Op::Unreachable
    } else if name_is(t, "Nop"@) {
        Op::Nop
    } else if name_is(t, "Block"@) {
        Op::Block
    } else if name_is(t, "Loop"@) {
        Op::Loop
    } else if name_is(t, "If"@) {
        match parse_blockty(t) {
            Some(b) => Op::If { blockty: b },
            None => Op::Other,
        }
    } else if name_is(t, "Else"@) {
        Op::Else
    } else if name_is(t, "End"@) {
        Op::End
    } else if name_is(t, "Br"@) {
        Op::Br
    } else if name_is(t, "BrIf"@) {
        Op::BrIf
    } else if name_is(t, "BrTable"@) {
        Op::BrTable
    } else if name_is(t, "Return"@) {
        Op::Return
    } else if name_is(t, "Call"@) {
        match immediate(t) {
            Some(n) => Op::Call { function_index: n },
            None => Op::Other,
        }
    } else if name_is(t, "CallIndirect"@) {
        match immediate(t) {
            Some(n) => Op::CallIndirect { type_index: n },
            None => Op::Other,
        }
    } else if name_is(t, "Drop"@) {
        Op::Drop
    } else if name_is(t, "Select"@) {
        Op::Select
    } else if name_is(t, "LocalGet"@) {
        match immediate(t) {
            Some(n) => Op::LocalGet { local_index: n },
            None => Op::Other,
        }
    } else if name_is(t, "LocalSet"@) {
        Op::LocalSet
    } else if name_is(t, "LocalTee"@) {
        Op::LocalTee
    } else if name_is(t, "GlobalGet"@) {
        match immediate(t) {
            Some(n) => Op::GlobalGet { global_index: n },
            None => Op::Other,
        }
    } else if name_is(t, "GlobalSet"@) {
        Op::GlobalSet
    } else if name_is(t, "I32Load"@) {
        Op::I32Load
    } else if name_is(t, "I64Load"@) {
        Op::I64Load
    } else if name_is(t, "F32Load"@) {
        Op::F32Load
    } else if name_is(t, "F64Load"@) {
        Op::F64Load
    } else if name_is(t, "I32Load8S"@) {
        Op::I32Load8S
    } else if name_is(t, "I32Load8U"@) {
        Op::I32Load8U
    } else if name_is(t, "I32Load16S"@) {
        Op::I32Load16S
    } else if name_is(t, "I32Load16U"@) {
        Op::I32Load16U
    } else if name_is(t, "I64Load8S"@) {
        Op::I64Load8S
    } else if name_is(t, "I64Load8U"@) {
        Op::I64Load8U
    } else if name_is(t, "I64Load16S"@) {
        Op::I64Load16S
    } else if name_is(t, "I64Load16U"@) {
        Op::I64Load16U
    } else if name_is(t, "I64Load32S"@) {
        Op::I64Load32S
    } else if name_is(t, "I64Load32U"@) {
        Op::I64Load32U
    } else if name_is(t, "I32Store"@) {
        Op::I32Store
    } else if name_is(t, "I64Store"@) {
        Op::I64Store
    } else if name_is(t, "F32Store"@) {
        Op::F32Store
    } else if name_is(t, "F64Store"@) {
        Op::F64Store
    } else if name_is(t, "I32Store8"@) {
        Op::I32Store8
    } else if name_is(t, "I32Store16"@) {
        Op::I32Store16
    } else if name_is(t, "I64Store8"@) {
        Op::I64Store8
    } else if name_is(t, "I64Store16"@) {
        Op::I64Store16
    } else if name_is(t, "I64Store32"@) {
        Op::I64Store32
    } else if name_is(t, "MemorySize"@) {
        Op::MemorySize
    } else if name_is(t, "MemoryGrow"@) {
        Op::MemoryGrow
    } else if name_is(t, "I32Const"@) {
        Op::I32Const
    } else if name_is(t, "I64Const"@) {
        Op::I64Const
    } else if name_is(t, "F32Const"@) {
        Op::F32Const
    } else if name_is(t, "F64Const"@) {
        Op::F64Const
    } else if name_is(t, "I32Eqz"@) {
        Op::I32Eqz
    } else if name_is(t, "I32Eq"@) {
        Op::I32Eq
    } else if name_is(t, "I32Ne"@) {
        Op::I32Ne
    } else if name_is(t, "I32LtS"@) {
        Op::I32LtS
    } else if name_is(t, "I32LtU"@) {
        Op::I32LtU
    } else if name_is(t, "I32GtS"@) {
        Op::I32GtS
    } else if name_is(t, "I32GtU"@) {
        Op::I32GtU
    } else if name_is(t, "I32LeS"@) {
        Op::I32LeS
    } else if name_is(t, "I32LeU"@) {
        Op::I32LeU
    } else if name_is(t, "I32GeS"@) {
        Op::I32GeS
    } else if name_is(t, "I32GeU"@) {
        Op::I32GeU
    } else if name_is(t, "I64Eqz"@) {
        Op::I64Eqz
    } else if name_is(t, "I64Eq"@) {
        Op::I64Eq
    } else if name_is(t, "I64Ne"@) {
        Op::I64Ne
    } else if name_is(t, "I64LtS"@) {
        Op::I64LtS
    } else if name_is(t, "I64LtU"@) {
        Op::I64LtU
    } else if name_is(t, "I64GtS"@) {
        Op::I64GtS
    } else if name_is(t, "I64GtU"@) {
        Op::I64GtU
    } else if name_is(t, "I64LeS"@) {
        Op::I64LeS
    } else if name_is(t, "I64LeU"@) {
        Op::I64LeU
    } else if name_is(t, "I64GeS"@) {
        Op::I64GeS
    } else if name_is(t, "I64GeU"@) {
        Op::I64GeU
    } else if name_is(t, "F32Eq"@) {
        Op::F32Eq
    } else if name_is(t, "F32Ne"@) {
        Op::F32Ne
    } else if name_is(t, "F32Lt"@) {
        Op::F32Lt
    } else if name_is(t, "F32Gt"@) {
        Op::F32Gt
    } else if name_is(t, "F32Le"@) {
        Op::F32Le
    } else if name_is(t, "F32Ge"@) {
        Op::F32Ge
    } else if name_is(t, "F64Eq"@) {
        Op::F64Eq
    } else if name_is(t, "F64Ne"@) {
        Op::F64Ne
    } else if name_is(t, "F64Lt"@) {
        Op::F64Lt
    } else if name_is(t, "F64Gt"@) {
        Op::F64Gt
    } else if name_is(t, "F64Le"@) {
        Op::F64Le
    } else if name_is(t, "F64Ge"@) {
        Op::F64Ge
    } else if name_is(t, "I32Clz"@) {
        Op::I32Clz
    } else if name_is(t, "I32Ctz"@) {
        Op::I32Ctz
    } else if name_is(t, "I32Popcnt"@) {
        Op::I32Popcnt
    } else if name_is(t, "I32Add"@) {
        Op::I32Add
    } else if name_is(t, "I32Sub"@) {
        Op::I32Sub
    } else if name_is(t, "I32Mul"@) {
        Op::I32Mul
    } else if name_is(t, "I32DivS"@) {
        Op::I32DivS
    } else if name_is(t, "I32DivU"@) {
        Op::I32DivU
    } else if name_is(t, "I32RemS"@) {
        Op::I32RemS
    } else if name_is(t, "I32RemU"@) {
        Op::I32RemU
    } else if name_is(t, "I32And"@) {
        Op::I32And
    } else if name_is(t, "I32Or"@) {
        Op::I32Or
    } else if name_is(t, "I32Xor"@) {
        Op::I32Xor
    } else if name_is(t, "I32Shl"@) {
        Op::I32Shl
    } else if name_is(t, "I32ShrS"@) {
        Op::I32ShrS
    } else if name_is(t, "I32ShrU"@) {
        Op::I32ShrU
    } else if name_is(t, "I32Rotl"@) {
        Op::I32Rotl
    } else if name_is(t, "I32Rotr"@) {
        Op::I32Rotr
    } else if name_is(t, "I64Clz"@) {
        Op::I64Clz
    } else if name_is(t, "I64Ctz"@) {
        Op::I64Ctz
    } else if name_is(t, "I64Popcnt"@) {
        Op::I64Popcnt
    } else if name_is(t, "I64Add"@) {
        Op::I64Add
    } else if name_is(t, "I64Sub"@) {
        Op::I64Sub
    } else if name_is(t, "I64Mul"@) {
        Op::I64Mul
    } else if name_is(t, "I64DivS"@) {
        Op::I64DivS
    } else if name_is(t, "I64DivU"@) {
        Op::I64DivU
    } else if name_is(t, "I64RemS"@) {
        Op::I64RemS
    } else if name_is(t, "I64RemU"@) {
        Op::I64RemU
    } else if name_is(t, "I64And"@) {
        Op::I64And
    } else if name_is(t, "I64Or"@) {
        Op::I64Or
    } else if name_is(t, "I64Xor"@) {
        Op::I64Xor
    } else if name_is(t, "I64Shl"@) {
        Op::I64Shl
    } else if name_is(t, "I64ShrS"@) {
        Op::I64ShrS
    } else if name_is(t, "I64ShrU"@) {
        Op::I64ShrU
    } else if name_is(t, "I64Rotl"@) {
        Op::I64Rotl
    } else if name_is(t, "I64Rotr"@) {
        Op::I64Rotr
    } else if name_is(t, "F32Abs"@) {
        Op::F32Abs
    } else if name_is(t, "F32Neg"@) {
        Op::F32Neg
    } else if name_is(t, "F32Ceil"@) {
        Op::F32Ceil
    } else if name_is(t, "F32Floor"@) {
        Op::F32Floor
    } else if name_is(t, "F32Trunc"@) {
        Op::F32Trunc
    } else if name_is(t, "F32Nearest"@) {
        Op::F32Nearest
    } else if name_is(t, "F32Sqrt"@) {
        Op::F32Sqrt
    } else if name_is(t, "F32Add"@) {
        Op::F32Add
    } else if name_is(t, "F32Sub"@) {
        Op::F32Sub
    } else if name_is(t, "F32Mul"@) {
        Op::F32Mul
    } else if name_is(t, "F32Div"@) {
        Op::F32Div
    } else if name_is(t, "F32Min"@) {
        Op::F32Min
    } else if name_is(t, "F32Max"@) {
        Op::F32Max
    } else if name_is(t, "F32Copysign"@) {
        Op::F32Copysign
    } else if name_is(t, "F64Abs"@) {
        Op::F64Abs
    } else if name_is(t, "F64Neg"@) {
        Op::F64Neg
    } else if name_is(t, "F64Ceil"@) {
        Op::F64Ceil
    } else if name_is(t, "F64Floor"@) {
        Op::F64Floor
    } else if name_is(t, "F64Trunc"@) {
        Op::F64Trunc
    } else if name_is(t, "F64Nearest"@) {
        Op::F64Nearest
    } else if name_is(t, "F64Sqrt"@) {
        Op::F64Sqrt
    } else if name_is(t, "F64Add"@) {
        Op::F64Add
    } else if name_is(t, "F64Sub"@) {
        Op::F64Sub
    } else if name_is(t, "F64Mul"@) {
        Op::F64Mul
    } else if name_is(t, "F64Div"@) {
        Op::F64Div
    } else if name_is(t, "F64Min"@) {
        Op::F64Min
    } else if name_is(t, "F64Max"@) {
        Op::F64Max
    } else if name_is(t, "F64Copysign"@) {
        Op::F64Copysign
    } else if name_is(t, "I32WrapI64"@) {
        Op::I32WrapI64
    } else if name_is(t, "I32TruncF32S"@) {
        Op::I32TruncF32S
    } else if name_is(t, "I32TruncF32U"@) {
        Op::I32TruncF32U
    } else if name_is(t, "I32TruncF64S"@) {
        Op::I32TruncF64S
    } else if name_is(t, "I32TruncF64U"@) {
        Op::I32TruncF64U
    } else if name_is(t, "I64ExtendI32S"@) {
        Op::I64ExtendI32S
    } else if name_is(t, "I64ExtendI32U"@) {
        Op::I64ExtendI32U
    } else if name_is(t, "I64TruncF32S"@) {
        Op::I64TruncF32S
    } else if name_is(t, "I64TruncF32U"@) {
        Op::I64TruncF32U
    } else if name_is(t, "I64TruncF64S"@) {
        Op::I64TruncF64S
    } else if name_is(t, "I64TruncF64U"@) {
        Op::I64TruncF64U
    } else if name_is(t, "F32ConvertI32S"@) {
        Op::F32ConvertI32S
    } else if name_is(t, "F32ConvertI32U"@) {
        Op::F32ConvertI32U
    } else if name_is(t, "F32ConvertI64S"@) {
        Op::F32ConvertI64S
    } else if name_is(t, "F32ConvertI64U"@) {
        Op::F32ConvertI64U
    } else if name_is(t, "F32DemoteF64"@) {
        Op::F32DemoteF64
    } else if name_is(t, "F64ConvertI32S"@) {
        Op::F64ConvertI32S
    } else if name_is(t, "F64ConvertI32U"@) {
        Op::F64ConvertI32U
    } else if name_is(t, "F64ConvertI64S"@) {
        Op::F64ConvertI64S
    } else if name_is(t, "F64ConvertI64U"@) {
        Op::F64ConvertI64U
    } else if name_is(t, "F64PromoteF32"@) {
        Op::F64PromoteF32
    } else if name_is(t, "I32ReinterpretF32"@) {
        Op::I32ReinterpretF32
    } else if name_is(t, "I64ReinterpretF64"@) {
        Op::I64ReinterpretF64
    } else if name_is(t, "F32ReinterpretI32"@) {
        Op::F32ReinterpretI32
    } else if name_is(t, "F64ReinterpretI64"@) {
        Op::F64ReinterpretI64
    } else if name_is(t, "I32Extend8S"@) {
        Op::I32Extend8S
    } else if name_is(t, "I32Extend16S"@) {
        Op::I32Extend16S
    } else if name_is(t, "I64Extend8S"@) {
        Op::I64Extend8S
    } else if name_is(t, "I64Extend16S"@) {
        Op::I64Extend16S
    } else if name_is(t, "I64Extend32S"@) {
        Op::I64Extend32S
    } else if name_is(t, "MemoryInit"@) {
        Op::MemoryInit
    } else if name_is(t, "DataDrop"@) {
        Op::DataDrop
    } else if name_is(t, "MemoryCopy"@) {
        Op::MemoryCopy
    } else if name_is(t, "MemoryFill"@) {
        Op::MemoryFill
    } else if name_is(t, "TypedSelect"@) {
        Op::TypedSelect
    } else if name_is(t, "TableGet"@) {
        Op::TableGet
    } else if name_is(t, "TableSet"@) {
        Op::TableSet
    } else if name_is(t, "MemoryAtomicNotify"@) {
        Op::MemoryAtomicNotify
    } else if name_is(t, "MemoryAtomicWait32"@) {
        Op::MemoryAtomicWait32
    } else if name_is(t, "I32AtomicStore"@) {
        Op::I32AtomicStore
    } else if name_is(t, "I32AtomicRmwCmpxchg"@) {
        Op::I32AtomicRmwCmpxchg
    } else {
        Op::Other
    }
}

/// A value never falls below the accumulator it starts from.
proof fn lemma_digits_value_grows(t: Seq<char>, i: nat, acc: nat)
    ensures
        digits_value(t, i, acc) >= acc,
    decreases t.len() - i,
{
    if i < t.len() && is_digit(t[i as int]) {
        lemma_digits_value_grows(t, i + 1, acc * 10 + (t[i as int] as nat - '0' as nat) as nat);
    }
}

/// The characters of `s`.
pub fn chars_of(s: &str) -> (r: Vec<char>)
    ensures
        r@ == s@,
{
    let n: usize = s.unicode_len();
    let mut r: Vec<char> = Vec::new();
    let mut i: usize = 0;
    while i < n
        invariant
            n == s@.len(),
            i <= n,
            r@ == s@.take(i as int),
        decreases n - i,
    {
        r.push(s.get_char(i));
        assert(r@ =~= s@.take(i + 1));
        i = i + 1;
    }
    assert(r@ =~= s@);
    r
}

fn scan_to_exec(v: &Vec<char>, c: char, i: usize) -> (r: usize)
    ensures
        r == scan_to(v@, c, i as nat),
{
    let mut j: usize = i;
    while j < v.len() && v[j] != c
        invariant
            i <= j,
            scan_to(v@, c, j as nat) == scan_to(v@, c, i as nat),
        decreases v@.len() - j,
    {
        j = j + 1;
    }
    j
}

fn starts_at_exec(v: &Vec<char>, i: usize, lit: &str) -> (r: bool)
    ensures
        r == starts_at(v@, i as int, lit@),
{
    let n: usize = lit.unicode_len();
    if n > v.len() || i > v.len() - n {
        return false;
    }
    let mut j: usize = 0;
    while j < n
        invariant
            n == lit@.len(),
            i + n <= v.len(),
            j <= n,
            forall|k: int| 0 <= k < j ==> v@[i + k] == lit@[k],
        decreases n - j,
    {
        if v[i + j] != lit.get_char(j) {
            assert(v@.subrange(i as int, i + n)[j as int] != lit@[j as int]);
            return false;
        }
        j = j + 1;
    }
    assert(v@.subrange(i as int, i + n) =~= lit@);
    true
}

fn name_is_exec(v: &Vec<char>, k: usize, lit: &str) -> (r: bool)
    requires
        k == scan_to(v@, ' ', 0),
    ensures
        r == name_is(v@, lit@),
{
    k == lit.unicode_len() && starts_at_exec(v, 0, lit)
}

fn number_at_exec(v: &Vec<char>, i: usize) -> (r: Option<u32>)
    ensures
        r == number_at(v@, i as nat),
{
    if i >= v.len() || !('0' <= v[i] && v[i] <= '9') {
        return None;
    }
    let mut j: usize = i;
    let mut acc: u64 = 0;
    while j < v.len() && '0' <= v[j] && v[j] <= '9'
        invariant
            i <= j <= v@.len(),
            acc <= u32::MAX,
            digits_value(v@, j as nat, acc as nat) == digits_value(v@, i as nat, 0),
        decreases v@.len() - j,
    {
        let d: u64 = (v[j] as u32 - '0' as u32) as u64;
        let next: u64 = acc * 10 + d;
        if next > 0xffff_ffffu64 {
            proof {
                lemma_digits_value_grows(v@, (j + 1) as nat, next as nat);
            }
            return None;
        }
        acc = next;
        j = j + 1;
    }
    Some(acc as u32)
}

fn immediate_exec(v: &Vec<char>) -> (r: Option<u32>)
    ensures
        r == immediate(v@),
{
    let c: usize = scan_to_exec(v, ':', 0);
    if v.len() < 2 || c >= v.len() - 2 {
        return None;
    }
    // past the `: ` that follows the field name
    number_at_exec(v, c + 2)
}

fn valty_at_exec(v: &Vec<char>, i: usize) -> (r: ValTy)
    ensures
        r == valty_at(v@, i as int),
{
    if starts_at_exec(v, i, "I32") {
        ValTy::I32
    } else if starts_at_exec(v, i, "I64") {
        ValTy::I64
    } else if starts_at_exec(v, i, "F32") {
        ValTy::F32
    } else if starts_at_exec(v, i, "F64") {
        ValTy::F64
    } else if starts_at_exec(v, i, "V128") {
        ValTy::V128
    } else {
        ValTy::Ref
    }
}

fn parse_blockty_exec(v: &Vec<char>) -> (r: Option<BlockTy>)
    ensures
        r == parse_blockty(v@),
{
    let c: usize = scan_to_exec(v, ':', 0);
    if v.len() < 2 || c > v.len() - 2 {
        return None;
    }
    let i: usize = c + 2;
    proof {
        reveal_strlit("FuncType(");
        reveal_strlit("Type(");
    }
    if starts_at_exec(v, i, "Empty") {
        Some(BlockTy::Empty)
    } else if starts_at_exec(v, i, "FuncType(") {
        match number_at_exec(v, i + 9) {
            Some(n) => Some(BlockTy::FuncType(n)),
            None => None,
        }
    } else if starts_at_exec(v, i, "Type(") {
        Some(BlockTy::Type(valty_at_exec(v, i + 5)))
    } else {
        None
    }
}

/// Reads an operator back from its text form.
pub fn op_from_text_exec(text: &str) -> (r: Op)
    ensures
        r == op_from_text(text@),
{
    let chars = chars_of(text);
    let v = &chars;
    let k: usize = scan_to_exec(v, ' ', 0);
    if name_is_exec(v, k, "Unreachable") {
        Op::Unreachable
    } else if name_is_exec(v, k, "Nop") {
        Op::Nop
    } else if name_is_exec(v, k, "Block") {
        Op::Block
    } else if name_is_exec(v, k, "Loop") {
        Op::Loop
    } else if name_is_exec(v, k, "If") {
        match parse_blockty_exec(v) {
            Some(b) => Op::If { blockty: b },
            None => Op::Other,
        }
    } else if name_is_exec(v, k, "Else") {
        Op::Else
    } else if name_is_exec(v, k, "End") {
        Op::End
    } else if name_is_exec(v, k, "Br") {
        Op::Br
    } else if name_is_exec(v, k, "BrIf") {
        Op::BrIf
    } else if name_is_exec(v, k, "BrTable") {
        Op::BrTable
    } else if name_is_exec(v, k, "Return") {
        Op::Return
    } else if name_is_exec(v, k, "Call") {
        match immediate_exec(v) {
            Some(n) => Op::Call { function_index: n },
            None => Op::Other,
        }
    } else if name_is_exec(v, k, "CallIndirect") {
        match immediate_exec(v) {
            Some(n) => Op::CallIndirect { type_index: n },
            None => Op::Other,
        }
    } else if name_is_exec(v, k, "Drop") {
        Op::Drop
    } else if name_is_exec(v, k, "Select") {
        Op::Select
    } else if name_is_exec(v, k, "LocalGet") {
        match immediate_exec(v) {
            Some(n) => Op::LocalGet { local_index: n },
            None => Op::Other,
        }
    } else if name_is_exec(v, k, "LocalSet") {
        Op::LocalSet
    } else if name_is_exec(v, k, "LocalTee") {
        Op::LocalTee
    } else if name_is_exec(v, k, "GlobalGet") {
        match immediate_exec(v) {
            Some(n) => Op::GlobalGet { global_index: n },
            None => Op::Other,
        }
    } else if name_is_exec(v, k, "GlobalSet") {
        Op::GlobalSet
    } else if name_is_exec(v, k, "I32Load") {
        Op::I32Load
    } else if name_is_exec(v, k, "I64Load") {
        Op::I64Load
    } else if name_is_exec(v, k, "F32Load") {
        Op::F32Load
    } else if name_is_exec(v, k, "F64Load") {
        Op::F64Load
    } else if name_is_exec(v, k, "I32Load8S") {
        Op::I32Load8S
    } else if name_is_exec(v, k, "I32Load8U") {
        Op::I32Load8U
    } else if name_is_exec(v, k, "I32Load16S") {
        Op::I32Load16S
    } else if name_is_exec(v, k, "I32Load16U") {
        Op::I32Load16U
    } else if name_is_exec(v, k, "I64Load8S") {
        Op::I64Load8S
    } else if name_is_exec(v, k, "I64Load8U") {
        Op::I64Load8U
    } else if name_is_exec(v, k, "I64Load16S") {
        Op::I64Load16S
    } else if name_is_exec(v, k, "I64Load16U") {
        Op::I64Load16U
    } else if name_is_exec(v, k, "I64Load32S") {
        Op::I64Load32S
    } else if name_is_exec(v, k, "I64Load32U") {
        Op::I64Load32U
    } else if name_is_exec(v, k, "I32Store") {
        Op::I32Store
    } else if name_is_exec(v, k, "I64Store") {
        Op::I64Store
    } else if name_is_exec(v, k, "F32Store") {
        Op::F32Store
    } else if name_is_exec(v, k, "F64Store") {
        Op::F64Store
    } else if name_is_exec(v, k, "I32Store8") {
        Op::I32Store8
    } else if name_is_exec(v, k, "I32Store16") {
        Op::I32Store16
    } else if name_is_exec(v, k, "I64Store8") {
        Op::I64Store8
    } else if name_is_exec(v, k, "I64Store16") {
        Op::I64Store16
    } else if name_is_exec(v, k, "I64Store32") {
        Op::I64Store32
    } else if name_is_exec(v, k, "MemorySize") {
        Op::MemorySize
    } else if name_is_exec(v, k, "MemoryGrow") {
        Op::MemoryGrow
    } else if name_is_exec(v, k, "I32Const") {
        Op::I32Const
    } else if name_is_exec(v, k, "I64Const") {
        Op::I64Const
    } else if name_is_exec(v, k, "F32Const") {
        Op::F32Const
    } else if name_is_exec(v, k, "F64Const") {
        Op::F64Const
    } else if name_is_exec(v, k, "I32Eqz") {
        Op::I32Eqz
    } else if name_is_exec(v, k, "I32Eq") {
        Op::I32Eq
    } else if name_is_exec(v, k, "I32Ne") {
        Op::I32Ne
    } else if name_is_exec(v, k, "I32LtS") {
        Op::I32LtS
    } else if name_is_exec(v, k, "I32LtU") {
        Op::I32LtU
    } else if name_is_exec(v, k, "I32GtS") {
        Op::I32GtS
    } else if name_is_exec(v, k, "I32GtU") {
        Op::I32GtU
    } else if name_is_exec(v, k, "I32LeS") {
        Op::I32LeS
    } else if name_is_exec(v, k, "I32LeU") {
        Op::I32LeU
    } else if name_is_exec(v, k, "I32GeS") {
        Op::I32GeS
    } else if name_is_exec(v, k, "I32GeU") {
        Op::I32GeU
    } else if name_is_exec(v, k, "I64Eqz") {
        Op::I64Eqz
    } else if name_is_exec(v, k, "I64Eq") {
        Op::I64Eq
    } else if name_is_exec(v, k, "I64Ne") {
        Op::I64Ne
    } else if name_is_exec(v, k, "I64LtS") {
        Op::I64LtS
    } else if name_is_exec(v, k, "I64LtU") {
        Op::I64LtU
    } else if name_is_exec(v, k, "I64GtS") {
        Op::I64GtS
    } else if name_is_exec(v, k, "I64GtU") {
        Op::I64GtU
    } else if name_is_exec(v, k, "I64LeS") {
        Op::I64LeS
    } else if name_is_exec(v, k, "I64LeU") {
        Op::I64LeU
    } else if name_is_exec(v, k, "I64GeS") {
        Op::I64GeS
    } else if name_is_exec(v, k, "I64GeU") {
        Op::I64GeU
    } else if name_is_exec(v, k, "F32Eq") {
        Op::F32Eq
    } else if name_is_exec(v, k, "F32Ne") {
        Op::F32Ne
    } else if name_is_exec(v, k, "F32Lt") {
        Op::F32Lt
    } else if name_is_exec(v, k, "F32Gt") {
        Op::F32Gt
    } else if name_is_exec(v, k, "F32Le") {
        Op::F32Le
    } else if name_is_exec(v, k, "F32Ge") {
        Op::F32Ge
    } else if name_is_exec(v, k, "F64Eq") {
        Op::F64Eq
    } else if name_is_exec(v, k, "F64Ne") {
        Op::F64Ne
    } else if name_is_exec(v, k, "F64Lt") {
        Op::F64Lt
    } else if name_is_exec(v, k, "F64Gt") {
        Op::F64Gt
    } else if name_is_exec(v, k, "F64Le") {
        Op::F64Le
    } else if name_is_exec(v, k, "F64Ge") {
        Op::F64Ge
    } else if name_is_exec(v, k, "I32Clz") {
        Op::I32Clz
    } else if name_is_exec(v, k, "I32Ctz") {
        Op::I32Ctz
    } else if name_is_exec(v, k, "I32Popcnt") {
        Op::I32Popcnt
    } else if name_is_exec(v, k, "I32Add") {
        Op::I32Add
    } else if name_is_exec(v, k, "I32Sub") {
        Op::I32Sub
    } else if name_is_exec(v, k, "I32Mul") {
        Op::I32Mul
    } else if name_is_exec(v, k, "I32DivS") {
        Op::I32DivS
    } else if name_is_exec(v, k, "I32DivU") {
        Op::I32DivU
    } else if name_is_exec(v, k, "I32RemS") {
        Op::I32RemS
    } else if name_is_exec(v, k, "I32RemU") {
        Op::I32RemU
    } else if name_is_exec(v, k, "I32And") {
        Op::I32And
    } else if name_is_exec(v, k, "I32Or") {
        Op::I32Or
    } else if name_is_exec(v, k, "I32Xor") {
        Op::I32Xor
    } else if name_is_exec(v, k, "I32Shl") {
        Op::I32Shl
    } else if name_is_exec(v, k, "I32ShrS") {
        Op::I32ShrS
    } else if name_is_exec(v, k, "I32ShrU") {
        Op::I32ShrU
    } else if name_is_exec(v, k, "I32Rotl") {
        Op::I32Rotl
    } else if name_is_exec(v, k, "I32Rotr") {
        Op::I32Rotr
    } else if name_is_exec(v, k, "I64Clz") {
        Op::I64Clz
    } else if name_is_exec(v, k, "I64Ctz") {
        Op::I64Ctz
    } else if name_is_exec(v, k, "I64Popcnt") {
        Op::I64Popcnt
    } else if name_is_exec(v, k, "I64Add") {
        Op::I64Add
    } else if name_is_exec(v, k, "I64Sub") {
        Op::I64Sub
    } else if name_is_exec(v, k, "I64Mul") {
        Op::I64Mul
    } else if name_is_exec(v, k, "I64DivS") {
        Op::I64DivS
    } else if name_is_exec(v, k, "I64DivU") {
        Op::I64DivU
    } else if name_is_exec(v, k, "I64RemS") {
        Op::I64RemS
    } else if name_is_exec(v, k, "I64RemU") {
        Op::I64RemU
    } else if name_is_exec(v, k, "I64And") {
        Op::I64And
    } else if name_is_exec(v, k, "I64Or") {
        Op::I64Or
    } else if name_is_exec(v, k, "I64Xor") {
        Op::I64Xor
    } else if name_is_exec(v, k, "I64Shl") {
        Op::I64Shl
    } else if name_is_exec(v, k, "I64ShrS") {
        Op::I64ShrS
    } else if name_is_exec(v, k, "I64ShrU") {
        Op::I64ShrU
    } else if name_is_exec(v, k, "I64Rotl") {
        Op::I64Rotl
    } else if name_is_exec(v, k, "I64Rotr") {
        Op::I64Rotr
    } else if name_is_exec(v, k, "F32Abs") {
        Op::F32Abs
    } else if name_is_exec(v, k, "F32Neg") {
        Op::F32Neg
    } else if name_is_exec(v, k, "F32Ceil") {
        Op::F32Ceil
    } else if name_is_exec(v, k, "F32Floor") {
        Op::F32Floor
    } else if name_is_exec(v, k, "F32Trunc") {
        Op::F32Trunc
    } else if name_is_exec(v, k, "F32Nearest") {
        Op::F32Nearest
    } else if name_is_exec(v, k, "F32Sqrt") {
        Op::F32Sqrt
    } else if name_is_exec(v, k, "F32Add") {
        Op::F32Add
    } else if name_is_exec(v, k, "F32Sub") {
        Op::F32Sub
    } else if name_is_exec(v, k, "F32Mul") {
        Op::F32Mul
    } else if name_is_exec(v, k, "F32Div") {
        Op::F32Div
    } else if name_is_exec(v, k, "F32Min") {
        Op::F32Min
    } else if name_is_exec(v, k, "F32Max") {
        Op::F32Max
    } else if name_is_exec(v, k, "F32Copysign") {
        Op::F32Copysign
    } else if name_is_exec(v, k, "F64Abs") {
        Op::F64Abs
    } else if name_is_exec(v, k, "F64Neg") {
        Op::F64Neg
    } else if name_is_exec(v, k, "F64Ceil") {
        Op::F64Ceil
    } else if name_is_exec(v, k, "F64Floor") {
        Op::F64Floor
    } else if name_is_exec(v, k, "F64Trunc") {
        Op::F64Trunc
    } else if name_is_exec(v, k, "F64Nearest") {
        Op::F64Nearest
    } else if name_is_exec(v, k, "F64Sqrt") {
        Op::F64Sqrt
    } else if name_is_exec(v, k, "F64Add") {
        Op::F64Add
    } else if name_is_exec(v, k, "F64Sub") {
        Op::F64Sub
    } else if name_is_exec(v, k, "F64Mul") {
        Op::F64Mul
    } else if name_is_exec(v, k, "F64Div") {
        Op::F64Div
    } else if name_is_exec(v, k, "F64Min") {
        Op::F64Min
    } else if name_is_exec(v, k, "F64Max") {
        Op::F64Max
    } else if name_is_exec(v, k, "F64Copysign") {
        Op::F64Copysign
    } else if name_is_exec(v, k, "I32WrapI64") {
        Op::I32WrapI64
    } else if name_is_exec(v, k, "I32TruncF32S") {
        Op::I32TruncF32S
    } else if name_is_exec(v, k, "I32TruncF32U") {
        Op::I32TruncF32U
    } else if name_is_exec(v, k, "I32TruncF64S") {
        Op::I32TruncF64S
    } else if name_is_exec(v, k, "I32TruncF64U") {
        Op::I32TruncF64U
    } else if name_is_exec(v, k, "I64ExtendI32S") {
        Op::I64ExtendI32S
    } else if name_is_exec(v, k, "I64ExtendI32U") {
        Op::I64ExtendI32U
    } else if name_is_exec(v, k, "I64TruncF32S") {
        Op::I64TruncF32S
    } else if name_is_exec(v, k, "I64TruncF32U") {
        Op::I64TruncF32U
    } else if name_is_exec(v, k, "I64TruncF64S") {
        Op::I64TruncF64S
    } else if name_is_exec(v, k, "I64TruncF64U") {
        Op::I64TruncF64U
    } else if name_is_exec(v, k, "F32ConvertI32S") {
        Op::F32ConvertI32S
    } else if name_is_exec(v, k, "F32ConvertI32U") {
        Op::F32ConvertI32U
    } else if name_is_exec(v, k, "F32ConvertI64S") {
        Op::F32ConvertI64S
    } else if name_is_exec(v, k, "F32ConvertI64U") {
        Op::F32ConvertI64U
    } else if name_is_exec(v, k, "F32DemoteF64") {
        Op::F32DemoteF64
    } else if name_is_exec(v, k, "F64ConvertI32S") {
        Op::F64ConvertI32S
    } else if name_is_exec(v, k, "F64ConvertI32U") {
        Op::F64ConvertI32U
    } else if name_is_exec(v, k, "F64ConvertI64S") {
        Op::F64ConvertI64S
    } else if name_is_exec(v, k, "F64ConvertI64U") {
        Op::F64ConvertI64U
    } else if name_is_exec(v, k, "F64PromoteF32") {
        Op::F64PromoteF32
    } else if name_is_exec(v, k, "I32ReinterpretF32") {
        Op::I32ReinterpretF32
    } else if name_is_exec(v, k, "I64ReinterpretF64") {
        Op::I64ReinterpretF64
    } else if name_is_exec(v, k, "F32ReinterpretI32") {
        Op::F32ReinterpretI32
    } else if name_is_exec(v, k, "F64ReinterpretI64") {
        Op::F64ReinterpretI64
    } else if name_is_exec(v, k, "I32Extend8S") {
        Op::I32Extend8S
    } else if name_is_exec(v, k, "I32Extend16S") {
        Op::I32Extend16S
    } else if name_is_exec(v, k, "I64Extend8S") {
        Op::I64Extend8S
    } else if name_is_exec(v, k, "I64Extend16S") {
        Op::I64Extend16S
    } else if name_is_exec(v, k, "I64Extend32S") {
        Op::I64Extend32S
    } else if name_is_exec(v, k, "MemoryInit") {
        Op::MemoryInit
    } else if name_is_exec(v, k, "DataDrop") {
        Op::DataDrop
    } else if name_is_exec(v, k, "MemoryCopy") {
        Op::MemoryCopy
    } else if name_is_exec(v, k, "MemoryFill") {
        Op::MemoryFill
    } else if name_is_exec(v, k, "TypedSelect") {
        Op::TypedSelect
    } else if name_is_exec(v, k, "TableGet") {
        Op::TableGet
    } else if name_is_exec(v, k, "TableSet") {
        Op::TableSet
    } else if name_is_exec(v, k, "MemoryAtomicNotify") {
        Op::MemoryAtomicNotify
    } else if name_is_exec(v, k, "MemoryAtomicWait32") {
        Op::MemoryAtomicWait32
    } else if name_is_exec(v, k, "I32AtomicStore") {
        Op::I32AtomicStore
    } else if name_is_exec(v, k, "I32AtomicRmwCmpxchg") {
        Op::I32AtomicRmwCmpxchg
    } else {
        Op::Other
    }
}

} // verus!
