use vstd::prelude::*;

use crate::module::Module;
use crate::op::{DecodedOp, Op};
use crate::text::{op_from_text, op_from_text_exec};
pub use crate::types::valtype_to_size;
use crate::types::{valty_size, valty_sizes, BlockTy, ValTy, WasmType};

verus! {

/// A function of a module.
pub enum Function {
    ImportFunction(ImportFunction),
    BytecodeFunction(BytecodeFunction),
}

/// An imported function: it has no body to analyse.
pub struct ImportFunction {}

impl ImportFunction {
    pub fn new() -> (r: Self)
        ensures
            r == (ImportFunction {}),
    {
        Self {}
    }
}

/// One analysed operator: the operator (also as text), its end offset relative to the
/// start of the operators, the type stack after it, and, for a direct call,
/// the number of values the callee returns.
#[derive(Clone, Debug)]
pub struct CodePos {
    pub opcode: Op,
    /// The operator as its decoder shows it, immediates included.
    pub operator: String,
    pub offset: u32,
    pub type_stack: Vec<u8>,
    pub callee_return_size: u32,
}

/// A function with a body, and the state of its type-stack analysis.
#[derive(Clone)]
pub struct BytecodeFunction {
    /// The size of each local (parameters first).
    pub locals: Vec<u8>,
    /// The operand type of each local (parameters first).
    pub local_types: Vec<WasmType>,
    /// The bytes of the function body (locals, then operators).
    pub func_body: Vec<u8>,
    /// The position of the body's first byte in the module.
    pub body_offset: u64,
    /// The analysed operators, filled by `construct`.
    pub codes: Vec<CodePos>,
    /// The module the function belongs to.
    pub module: Module,
    /// The block type of the most recent `if`, which a following `else` undoes.
    pub else_blockty: BlockTy,
}

/// The stack `s` after popping `n` entries; popping an empty stack leaves
/// it empty.
pub open spec fn pop_n(s: Seq<u8>, n: nat) -> Seq<u8> {
    if n <= s.len() {
        s.take(s.len() - n)
    } else {
        Seq::empty()
    }
}

/// The effect of an operator on the type stack, as a triple: whether the
/// stack is cleared first, how many entries are then popped, and which
/// sizes are then pushed. `bt` is the block type of the most recent `if`.
pub open spec fn stack_effect(m: Module, locals: Seq<u8>, bt: BlockTy, op: Op) -> (bool, nat, Seq<u8>) {
    match op {
        Op::If { .. } => (false, 1, Seq::empty()),
        Op::Else => match bt {
            BlockTy::Empty => (false, 0, Seq::empty()),
            BlockTy::Type(_) => (false, 1, Seq::empty()),
            BlockTy::FuncType(t) => (
                false,
                m.types@[t as int].results@.len(),
                valty_sizes(m.types@[t as int].params@),
            ),
        },
        Op::Br | Op::Return => (true, 0, Seq::empty()),
        Op::Call { function_index } => (
            false,
            m.spec_func_type(function_index as int).params@.len(),
            valty_sizes(m.spec_func_type(function_index as int).results@),
        ),
        Op::CallIndirect { type_index } => (
            false,
            1 + m.types@[type_index as int].params@.len(),
            valty_sizes(m.types@[type_index as int].results@),
        ),
        Op::LocalGet { local_index } => (false, 0, seq![locals[local_index as int]]),
        Op::GlobalGet { global_index } => (
            false,
            0,
            seq![valty_size(m.globals@[global_index as int])],
        ),
        Op::Unreachable | Op::Nop | Op::Block | Op::Loop | Op::End | Op::LocalTee
        | Op::I32Load | Op::F32Load | Op::I32Load8S | Op::I32Load8U | Op::I32Load16S
        | Op::I32Load16U | Op::MemoryGrow | Op::I32Eqz | Op::I32Clz | Op::I32Ctz
        | Op::I32Popcnt | Op::I64Clz | Op::I64Ctz | Op::I64Popcnt | Op::F32Abs
        | Op::F32Neg | Op::F32Ceil | Op::F32Floor | Op::F32Trunc | Op::F32Nearest
        | Op::F32Sqrt | Op::F64Abs | Op::F64Neg | Op::F64Ceil | Op::F64Floor
        | Op::F64Trunc | Op::F64Nearest | Op::F64Sqrt | Op::I32TruncF32S
        | Op::I32TruncF32U | Op::I64TruncF64S | Op::I64TruncF64U | Op::F32ConvertI32S
        | Op::F32ConvertI32U | Op::F64ConvertI64S | Op::F64ConvertI64U
        | Op::I32ReinterpretF32 | Op::I64ReinterpretF64 | Op::F32ReinterpretI32
        | Op::F64ReinterpretI64 | Op::I32Extend8S | Op::I32Extend16S | Op::I64Extend8S
        | Op::I64Extend16S | Op::I64Extend32S | Op::DataDrop => (false, 0, Seq::empty()),
        Op::BrIf | Op::BrTable | Op::Drop | Op::LocalSet | Op::GlobalSet | Op::I32Eq
        | Op::I32Ne | Op::I32LtS | Op::I32LtU | Op::I32GtS | Op::I32GtU | Op::I32LeS
        | Op::I32LeU | Op::I32GeS | Op::I32GeU | Op::F32Eq | Op::F32Ne | Op::F32Lt
        | Op::F32Gt | Op::F32Le | Op::F32Ge | Op::I32Add | Op::I32Sub | Op::I32Mul
        | Op::I32DivS | Op::I32DivU | Op::I32RemS | Op::I32RemU | Op::I32And | Op::I32Or
        | Op::I32Xor | Op::I32Shl | Op::I32ShrS | Op::I32ShrU | Op::I32Rotl
        | Op::I32Rotr | Op::I64Add | Op::I64Sub | Op::I64Mul | Op::I64DivS | Op::I64DivU
        | Op::I64RemS | Op::I64RemU | Op::I64And | Op::I64Or | Op::I64Xor | Op::I64Shl
        | Op::I64ShrS | Op::I64ShrU | Op::I64Rotl | Op::I64Rotr | Op::F32Add
        | Op::F32Sub | Op::F32Mul | Op::F32Div | Op::F32Min | Op::F32Max
        | Op::F32Copysign | Op::F64Add | Op::F64Sub | Op::F64Mul | Op::F64Div
        | Op::F64Min | Op::F64Max | Op::F64Copysign | Op::MemoryAtomicNotify => (false, 1, Seq::empty()),
        Op::Select | Op::I32Store | Op::I64Store | Op::F32Store | Op::F64Store
        | Op::I32Store8 | Op::I32Store16 | Op::I64Store8 | Op::I64Store16
        | Op::I64Store32 | Op::TypedSelect | Op::TableSet | Op::I32AtomicStore => (false, 2, Seq::empty()),
        Op::I64Load | Op::F64Load | Op::I64Load8S | Op::I64Load8U | Op::I64Load16S
        | Op::I64Load16U | Op::I64Load32S | Op::I64Load32U | Op::I64ExtendI32S
        | Op::I64ExtendI32U | Op::I64TruncF32S | Op::I64TruncF32U | Op::F64ConvertI32S
        | Op::F64ConvertI32U | Op::F64PromoteF32 => (false, 1, seq![2u8]),
        Op::MemorySize | Op::I32Const | Op::F32Const => (false, 0, seq![1u8]),
        Op::I64Const | Op::F64Const => (false, 0, seq![2u8]),
        Op::I64Eqz | Op::I32WrapI64 | Op::I32TruncF64S | Op::I32TruncF64U
        | Op::F32ConvertI64S | Op::F32ConvertI64U | Op::F32DemoteF64 => (false, 1, seq![1u8]),
        Op::I64Eq | Op::I64Ne | Op::I64LtS | Op::I64LtU | Op::I64GtS | Op::I64GtU
        | Op::I64LeS | Op::I64LeU | Op::I64GeS | Op::I64GeU | Op::F64Eq | Op::F64Ne
        | Op::F64Lt | Op::F64Gt | Op::F64Le | Op::F64Ge | Op::MemoryAtomicWait32 => (false, 2, seq![1u8]),
        Op::I32AtomicRmwCmpxchg => (false, 3, seq![1u8]),
        Op::MemoryInit | Op::MemoryCopy | Op::MemoryFill => (false, 3, Seq::empty()),
        Op::TableGet => (false, 1, seq![255u8]),
        Op::Other => (false, 0, Seq::empty()),
    }
}

/// The stack `s` after the effect `e`.
pub open spec fn apply_effect(s: Seq<u8>, e: (bool, nat, Seq<u8>)) -> Seq<u8> {
    pop_n(if e.0 { Seq::empty() } else { s }, e.1) + e.2
}

/// The type stack after `op` runs on `s`.
pub open spec fn step_stack(m: Module, locals: Seq<u8>, bt: BlockTy, s: Seq<u8>, op: Op) -> Seq<u8> {
    apply_effect(s, stack_effect(m, locals, bt, op))
}

/// The block type that an `else` refers to after `op`.
pub open spec fn next_blockty(bt: BlockTy, op: Op) -> BlockTy {
    match op {
        Op::If { blockty } => blockty,
        _ => bt,
    }
}

/// The operators that the analysis handles.
pub open spec fn is_supported(op: Op) -> bool {
    !(op is Other)
}

/// The type stack and the `else` block type after running `ops` from an
/// empty stack and the block type `bt0`.
pub open spec fn run(m: Module, locals: Seq<u8>, bt0: BlockTy, ops: Seq<Op>) -> (Seq<u8>, BlockTy)
    decreases ops.len(),
{
    if ops.len() == 0 {
        (Seq::empty(), bt0)
    } else {
        let (s, bt) = run(m, locals, bt0, ops.drop_last());
        (step_stack(m, locals, bt, s, ops.last()), next_blockty(bt, ops.last()))
    }
}

/// A block type refers only to types of the module.
pub open spec fn blockty_ok(m: Module, bt: BlockTy) -> bool {
    match bt {
        BlockTy::FuncType(t) => t < m.types@.len(),
        _ => true,
    }
}

/// The indices that `op` carries refer to existing functions, types,
/// locals and globals. (The type an `if` names is looked up only at the
/// matching `else`.)
pub open spec fn op_refs_ok(m: Module, num_locals: nat, op: Op) -> bool {
    match op {
        Op::Call { function_index } => m.func_ok(function_index as int),
        Op::CallIndirect { type_index } => type_index < m.types@.len(),
        Op::LocalGet { local_index } => local_index < num_locals,
        Op::GlobalGet { global_index } => global_index < m.globals@.len(),
        _ => true,
    }
}

/// The number of values a directly called function returns; 0 for any
/// other operator.
pub open spec fn callee_return_size(m: Module, op: Op) -> u32 {
    match op {
        Op::Call { function_index } => m.spec_func_type(function_index as int).results@.len() as u32,
        _ => 0,
    }
}

/// The operators of a decoded body, without their positions.
pub open spec fn op_seq(ops: Seq<DecodedOp>) -> Seq<Op> {
    ops.map_values(|d: DecodedOp| d.op)
}

/// The operators of a decoded body, from their texts and start positions;
/// each operator ends where the next starts, the last at `end`.
pub open spec fn decode_ops(listing: Seq<(Seq<char>, u64)>, end: u64) -> Seq<DecodedOp> {
    Seq::new(
        listing.len(),
        |i: int|
            DecodedOp {
                op: op_from_text(listing[i].0),
                position: if i + 1 < listing.len() {
                    listing[i + 1].1
                } else {
                    end
                },
            },
    )
}

/// The offset of a reader position relative to the base position, as
/// 32-bit positions.
pub open spec fn rel_offset(position: u64, base: u64) -> int {
    (position as u32) - (base as u32)
}

/// The entry `codes[i + 1]` describes the operator `ops[i]` of text
/// `listing[i].0`: the operator itself, its text, its end offset relative
/// to `base`, the type stack after the first `i + 1` operators, and the
/// callee's result count.
pub open spec fn code_matches(
    m: Module,
    locals: Seq<u8>,
    bt0: BlockTy,
    listing: Seq<(Seq<char>, u64)>,
    ops: Seq<DecodedOp>,
    base: u64,
    codes: Seq<CodePos>,
    i: int,
) -> bool {
    let c = codes[i + 1];
    &&& c.opcode == ops[i].op
    &&& c.operator@ == listing[i].0
    &&& c.offset == rel_offset(ops[i].position, base)
    &&& c.type_stack@ == run(m, locals, bt0, op_seq(ops).take(i + 1)).0
    &&& c.callee_return_size == callee_return_size(m, ops[i].op)
}

/// The entry that opens the analysed code: a `nop` at offset 0 with an
/// empty stack.
pub open spec fn is_start_code(c: CodePos) -> bool {
    &&& c.opcode == Op::Nop
    &&& c.operator@ == "Nop"@
    &&& c.offset == 0
    &&& c.type_stack@ == Seq::<u8>::empty()
    &&& c.callee_return_size == 0
}

/// The operators can be analysed: their indices refer to existing
/// functions, types, locals and globals, every `else` undoes an existing
/// type, and no operator ends before the base position.
pub open spec fn ops_valid(m: Module, locals: Seq<u8>, bt0: BlockTy, ops: Seq<DecodedOp>, base: u64) -> bool {
    &&& forall|i: int| 0 <= i < ops.len() ==> op_refs_ok(m, locals.len(), #[trigger] ops[i].op)
    &&& forall|i: int|
        0 <= i < ops.len() && (#[trigger] ops[i].op is Else) ==> blockty_ok(
            m,
            run(m, locals, bt0, op_seq(ops).take(i)).1,
        )
    &&& forall|i: int| 0 <= i < ops.len() ==> rel_offset(#[trigger] ops[i].position, base) >= 0
}

/// What reading the body gives: `Err` with the reader's message when the
/// operators cannot be found; otherwise the position where the operators
/// start, each operator read (its text and start position) and, when
/// reading stopped on a malformed operator, the reader's message.
pub uninterp spec fn spec_read_operators(body: Seq<u8>, offset: u64) -> Result<
    (u64, Seq<(Seq<char>, u64)>, Option<Seq<char>>),
    Seq<char>,
>;

/// Reads the operators of a function body that starts at `offset` in its
/// module, with `wasmparser`'s `FunctionBody` and `OperatorsReader`; reading
/// stops at the end of the body or at the first malformed operator.
///
/// Trusted: the result is taken to be `spec_read_operators` of the body and
/// the offset (the reader is deterministic). Each operator is given as its
/// derived `Debug` text, with the position where it starts; an error is
/// given as the reader error's `Display` text.
#[verifier::external_body]
fn read_operators(body: &[u8], offset: u64) -> (r: Result<(u64, Vec<(String, u64)>, Option<String>), String>)
    requires
        offset + body@.len() <= u64::MAX,
    ensures
        r matches Err(e) ==> (spec_read_operators(body@, offset) matches Err(m) && m == e@),
        r matches Ok((base, listing, failure)) ==> (spec_read_operators(body@, offset) matches Ok(
            (b, l, f),
        ) && b == base && l == listing_view(listing@) && f == message_view(failure)),
{
    let func_body = wasmparser::FunctionBody::new(wasmparser::BinaryReader::new(body, offset));
    let reader = func_body.get_operators_reader().map_err(|e| e.to_string())?;
    let base = reader.original_position();
    let mut failure = None;
    let listing = reader.into_iter_with_offsets().map_while(|item| match item {
        Ok((op, pos)) => Some((format!("{:?}", op), pos)),
        Err(e) => {
            failure = Some(e.to_string());
            None
        },
    }).collect();
    Ok((base, listing, failure))
}

/// The view of an optional message.
pub open spec fn message_view(m: Option<String>) -> Option<Seq<char>> {
    match m {
        Some(s) => Some(s@),
        None => None,
    }
}

/// The view of a listing of texts and positions.
pub open spec fn listing_view(listing: Seq<(String, u64)>) -> Seq<(Seq<char>, u64)> {
    listing.map_values(|p: (String, u64)| (p.0@, p.1))
}

/// The message of `dispatch` for an operator it does not handle, given as
/// the text `t`.
pub open spec fn unsupported_text(t: Seq<char>) -> Seq<char> {
    "function.rs Unsupported operator: "@ + t
}

/// The `else` block type after `ops`, from `bt0`: only an `if` changes it.
pub open spec fn blockty_after(bt0: BlockTy, ops: Seq<Op>) -> BlockTy
    decreases ops.len(),
{
    if ops.len() == 0 {
        bt0
    } else {
        next_blockty(blockty_after(bt0, ops.drop_last()), ops.last())
    }
}

/// The block type a run leaves is `blockty_after`.
pub proof fn lemma_run_blockty(m: Module, locals: Seq<u8>, bt0: BlockTy, ops: Seq<Op>)
    ensures
        run(m, locals, bt0, ops).1 == blockty_after(bt0, ops),
    decreases ops.len(),
{
    if ops.len() > 0 {
        lemma_run_blockty(m, locals, bt0, ops.drop_last());
    }
}

/// The operators of a listing, each read back from its text.
pub open spec fn listing_ops(listing: Seq<(Seq<char>, u64)>) -> Seq<Op> {
    listing.map_values(|p: (Seq<char>, u64)| op_from_text(p.0))
}

/// Pops `n` entries, one at a time.
fn pop_times(v: &mut Vec<u8>, n: usize)
    ensures
        final(v)@ == pop_n(old(v)@, n as nat),
{
    let mut i: usize = 0;
    while i < n
        invariant
            i <= n,
            v@ == pop_n(old(v)@, i as nat),
        decreases n - i,
    {
        v.pop();
        assert(v@ =~= pop_n(old(v)@, (i + 1) as nat));
        i = i + 1;
    }
}

/// Pushes the size of each of `ts`.
fn push_sizes(v: &mut Vec<u8>, ts: &Vec<ValTy>)
    ensures
        final(v)@ == old(v)@ + valty_sizes(ts@),
{
    let mut i: usize = 0;
    while i < ts.len()
        invariant
            i <= ts@.len(),
            v@ == old(v)@ + valty_sizes(ts@.take(i as int)),
        decreases ts@.len() - i,
    {
        v.push(valtype_to_size(&ts[i]));
        assert(ts@.take(i + 1) =~= ts@.take(i as int).push(ts@[i as int]));
        assert(valty_sizes(ts@.take(i + 1)) =~= valty_sizes(ts@.take(i as int)).push(valty_size(ts@[i as int])));
        i = i + 1;
    }
    assert(ts@.take(ts@.len() as int) =~= ts@);
}

fn unsupported_message(text: &str) -> (r: String)
    ensures
        r@ == unsupported_text(text@),
{
    String::from_str("function.rs Unsupported operator: ").concat(text)
}

impl BytecodeFunction {
    pub fn new(
        module: Module,
        func_body: Vec<u8>,
        body_offset: u64,
        locals: Vec<u8>,
        local_types: Vec<WasmType>,
        else_blockty: BlockTy,
        codes: Vec<CodePos>,
    ) -> (r: Self)
        ensures
            r.module == module,
            r.func_body@ == func_body@,
            r.body_offset == body_offset,
            r.locals@ == locals@,
            r.local_types@ == local_types@,
            r.else_blockty == else_blockty,
            r.codes@ == codes@,
    {
        return Self { module, func_body, body_offset, locals, local_types, else_blockty, codes };
    }

    /// Checks `op_refs_ok` for one operator.
    pub fn refs_ok(&self, op: &Op) -> (r: bool)
        ensures
            r == op_refs_ok(self.module, self.locals@.len(), *op),
    {
        match op {
            Op::Call { function_index } => {
                (*function_index as usize) < self.module.funcs.len() && (self.module.funcs[*function_index as usize] as usize)
                    < self.module.types.len()
            },
            Op::CallIndirect { type_index } => (*type_index as usize) < self.module.types.len(),
            Op::LocalGet { local_index } => (*local_index as usize) < self.locals.len(),
            Op::GlobalGet { global_index } => (*global_index as usize) < self.module.globals.len(),
            _ => true,
        }
    }

    /// Runs one operator on the type stack `v`.
    ///
    /// `text` is the operator as its decoder shows it. Every operator but
    /// `Other` is handled: the stack then changes as `stack_effect` says and
    /// the result is `Ok(0)`; an `if` also records its block type for the
    /// matching `else`. Nothing else of the function changes. `Other`
    /// leaves everything unchanged and gives an error naming the operator.
    pub fn dispatch(&mut self, v: &mut Vec<u8>, op: &Op, text: &str) -> (r: Result<u32, String>)
        requires
            op_refs_ok(old(self).module, old(self).locals@.len(), *op),
            op is Else ==> blockty_ok(old(self).module, old(self).else_blockty),
        ensures
            *final(self) == (BytecodeFunction { else_blockty: final(self).else_blockty, ..*old(self) }),
            final(self).func_body@ == old(self).func_body@,
            final(self).body_offset == old(self).body_offset,
            final(self).module == old(self).module,
            final(self).locals@ == old(self).locals@,
            final(self).local_types@ == old(self).local_types@,
            final(self).codes@ == old(self).codes@,
            final(v)@ == step_stack(
                old(self).module,
                old(self).locals@,
                old(self).else_blockty,
                old(v)@,
                *op,
            ),
            final(self).else_blockty == next_blockty(old(self).else_blockty, *op),
            r is Ok <==> is_supported(*op),
            r matches Ok(x) ==> x == 0,
            r matches Err(e) ==> e@ == unsupported_text(text@),
    {
        match op {
            Op::If { blockty } => {
                // [t1* i32] -> [t2*]
                pop_times(v, 1);
                self.else_blockty = *blockty;
            },
            Op::Else => {
                match self.else_blockty {
                    BlockTy::Empty => {},
                    BlockTy::Type(_) => {
                        pop_times(v, 1);
                    },
                    BlockTy::FuncType(type_idx) => {
                        // undo the function type: its results leave, its params return
                        let func_type = self.module.get_type_by_type(type_idx);
                        pop_times(v, func_type.results.len());
                        push_sizes(v, &func_type.params);
                    },
                }
            },
            Op::Br | Op::Return => {
                // [t1* t*] -> [t2*]
                v.clear();
            },
            Op::Call { function_index } => {
                // [t1*] -> [t2*]
                let func_type = self.module.get_type_by_func(*function_index);
                pop_times(v, func_type.params.len());
                push_sizes(v, &func_type.results);
            },
            Op::CallIndirect { type_index } => {
                // [t1* i32] -> [t2*]
                pop_times(v, 1);
                let func_type = self.module.get_type_by_type(*type_index);
                pop_times(v, func_type.params.len());
                proof {
                    lemma_pop_n_pop_n(old(v)@, 1, func_type.params@.len());
                }
                push_sizes(v, &func_type.results);
            },
            Op::LocalGet { local_index } => {
                // [] -> [t]
                v.push(self.locals[*local_index as usize]);
            },
            Op::GlobalGet { global_index } => {
                // [] -> [t]
                let valtype = self.module.get_type_by_global(*global_index);
                v.push(valtype_to_size(valtype));
            },
            Op::Unreachable | Op::Nop | Op::Block | Op::Loop | Op::End | Op::LocalTee
            | Op::I32Load | Op::F32Load | Op::I32Load8S | Op::I32Load8U | Op::I32Load16S
            | Op::I32Load16U | Op::MemoryGrow | Op::I32Eqz | Op::I32Clz | Op::I32Ctz
            | Op::I32Popcnt | Op::I64Clz | Op::I64Ctz | Op::I64Popcnt | Op::F32Abs
            | Op::F32Neg | Op::F32Ceil | Op::F32Floor | Op::F32Trunc | Op::F32Nearest
            | Op::F32Sqrt | Op::F64Abs | Op::F64Neg | Op::F64Ceil | Op::F64Floor
            | Op::F64Trunc | Op::F64Nearest | Op::F64Sqrt | Op::I32TruncF32S
            | Op::I32TruncF32U | Op::I64TruncF64S | Op::I64TruncF64U | Op::F32ConvertI32S
            | Op::F32ConvertI32U | Op::F64ConvertI64S | Op::F64ConvertI64U
            | Op::I32ReinterpretF32 | Op::I64ReinterpretF64 | Op::F32ReinterpretI32
            | Op::F64ReinterpretI64 | Op::I32Extend8S | Op::I32Extend16S | Op::I64Extend8S
            | Op::I64Extend16S | Op::I64Extend32S | Op::DataDrop => {}
            Op::BrIf | Op::BrTable | Op::Drop | Op::LocalSet | Op::GlobalSet | Op::I32Eq
            | Op::I32Ne | Op::I32LtS | Op::I32LtU | Op::I32GtS | Op::I32GtU | Op::I32LeS
            | Op::I32LeU | Op::I32GeS | Op::I32GeU | Op::F32Eq | Op::F32Ne | Op::F32Lt
            | Op::F32Gt | Op::F32Le | Op::F32Ge | Op::I32Add | Op::I32Sub | Op::I32Mul
            | Op::I32DivS | Op::I32DivU | Op::I32RemS | Op::I32RemU | Op::I32And | Op::I32Or
            | Op::I32Xor | Op::I32Shl | Op::I32ShrS | Op::I32ShrU | Op::I32Rotl
            | Op::I32Rotr | Op::I64Add | Op::I64Sub | Op::I64Mul | Op::I64DivS | Op::I64DivU
            | Op::I64RemS | Op::I64RemU | Op::I64And | Op::I64Or | Op::I64Xor | Op::I64Shl
            | Op::I64ShrS | Op::I64ShrU | Op::I64Rotl | Op::I64Rotr | Op::F32Add
            | Op::F32Sub | Op::F32Mul | Op::F32Div | Op::F32Min | Op::F32Max
            | Op::F32Copysign | Op::F64Add | Op::F64Sub | Op::F64Mul | Op::F64Div
            | Op::F64Min | Op::F64Max | Op::F64Copysign | Op::MemoryAtomicNotify => { pop_times(v, 1); }
            Op::Select | Op::I32Store | Op::I64Store | Op::F32Store | Op::F64Store
            | Op::I32Store8 | Op::I32Store16 | Op::I64Store8 | Op::I64Store16
            | Op::I64Store32 | Op::TypedSelect | Op::TableSet | Op::I32AtomicStore => { pop_times(v, 2); }
            Op::I64Load | Op::F64Load | Op::I64Load8S | Op::I64Load8U | Op::I64Load16S
            | Op::I64Load16U | Op::I64Load32S | Op::I64Load32U | Op::I64ExtendI32S
            | Op::I64ExtendI32U | Op::I64TruncF32S | Op::I64TruncF32U | Op::F64ConvertI32S
            | Op::F64ConvertI32U | Op::F64PromoteF32 => { pop_times(v, 1); v.push(2); }
            Op::MemorySize | Op::I32Const | Op::F32Const => { v.push(1); }
            Op::I64Const | Op::F64Const => { v.push(2); }
            Op::I64Eqz | Op::I32WrapI64 | Op::I32TruncF64S | Op::I32TruncF64U
            | Op::F32ConvertI64S | Op::F32ConvertI64U | Op::F32DemoteF64 => { pop_times(v, 1); v.push(1); }
            Op::I64Eq | Op::I64Ne | Op::I64LtS | Op::I64LtU | Op::I64GtS | Op::I64GtU
            | Op::I64LeS | Op::I64LeU | Op::I64GeS | Op::I64GeU | Op::F64Eq | Op::F64Ne
            | Op::F64Lt | Op::F64Gt | Op::F64Le | Op::F64Ge | Op::MemoryAtomicWait32 => {
                pop_times(v, 2);
                v.push(1);
            },
            Op::I32AtomicRmwCmpxchg => {
                // [i32 i32 i32] -> [i32]
                pop_times(v, 3);
                v.push(1);
            },
            Op::MemoryInit | Op::MemoryCopy | Op::MemoryFill => { pop_times(v, 3); }
            Op::TableGet => { pop_times(v, 1); v.push(255); }
            Op::Other => {
                return Err(unsupported_message(text));
            },
        }
        return Ok(0);
    }
    /// Checks `ops_valid`.
    fn ops_ok(&self, ops: &Vec<DecodedOp>, base: u64) -> (r: bool)
        ensures
            r == ops_valid(self.module, self.locals@, self.else_blockty, ops@, base),
    {
        let ghost m = self.module;
        let ghost locals = self.locals@;
        let ghost all = op_seq(ops@);
        let mut bt = self.else_blockty;
        let mut i: usize = 0;
        while i < ops.len()
            invariant
                i <= ops@.len(),
                all == op_seq(ops@),
                m == self.module,
                locals == self.locals@,
                bt == run(m, locals, self.else_blockty, all.take(i as int)).1,
                forall|k: int| 0 <= k < i ==> op_refs_ok(m, locals.len(), #[trigger] ops@[k].op),
                forall|k: int|
                    0 <= k < i && (#[trigger] ops@[k].op is Else) ==> blockty_ok(
                        m,
                        run(m, locals, self.else_blockty, all.take(k)).1,
                    ),
                forall|k: int| 0 <= k < i ==> rel_offset(#[trigger] ops@[k].position, base) >= 0,
            decreases ops@.len() - i,
        {
            let op = ops[i].op;
            if !self.refs_ok(&op) {
                return false;
            }
            match op {
                Op::Else => match bt {
                    BlockTy::FuncType(t) => {
                        if t as usize >= self.module.types.len() {
                            return false;
                        }
                    },
                    _ => {},
                },
                _ => {},
            }
            if (ops[i].position as u32) < (base as u32) {
                return false;
            }
            proof {
                assert(all.take(i + 1).drop_last() =~= all.take(i as int));
            }
            bt = match op {
                Op::If { blockty } => blockty,
                _ => bt,
            };
            i = i + 1;
        }
        true
    }

    /// Runs the analysis over checked operators and records it in `codes`.
    fn record(&mut self, listing: &Vec<(String, u64)>, ops: &Vec<DecodedOp>, base: u64)
        requires
            ops@.len() == listing@.len(),
            forall|i: int| 0 <= i < ops@.len() ==> (#[trigger] ops@[i]).op == op_from_text(listing@[i].0@),
            ops_valid(old(self).module, old(self).locals@, old(self).else_blockty, ops@, base),
        ensures
            final(self).module == old(self).module,
            final(self).func_body@ == old(self).func_body@,
            final(self).body_offset == old(self).body_offset,
            final(self).locals@ == old(self).locals@,
            final(self).local_types@ == old(self).local_types@,
            final(self).else_blockty == run(
                old(self).module,
                old(self).locals@,
                old(self).else_blockty,
                op_seq(ops@),
            ).1,
            final(self).codes@.len() == ops@.len() + 1,
            is_start_code(final(self).codes@[0]),
            forall|i: int|
                0 <= i < ops@.len() ==> #[trigger] code_matches(
                    old(self).module,
                    old(self).locals@,
                    old(self).else_blockty,
                    listing_view(listing@),
                    ops@,
                    base,
                    final(self).codes@,
                    i,
                ),
    {
        let ghost m = self.module;
        let ghost locals = self.locals@;
        let ghost bt0 = self.else_blockty;
        let ghost all = op_seq(ops@);
        let ghost lv = listing_view(listing@);
        let mut type_stack: Vec<u8> = Vec::new();
        let mut codes: Vec<CodePos> = Vec::new();
        let base_offset: u32 = base as u32;

        // the first entry stands for offset 0
        codes.push(
            CodePos {
                opcode: Op::Nop,
                operator: String::from_str("Nop"),
                offset: 0,
                type_stack: Vec::new(),
                callee_return_size: 0,
            },
        );

        let mut i: usize = 0;
        while i < ops.len()
            invariant
                i <= ops@.len(),
                ops@.len() == listing@.len(),
                all == op_seq(ops@),
                lv == listing_view(listing@),
                self.module == m,
                self.locals@ == locals,
                self.local_types@ == old(self).local_types@,
                self.func_body@ == old(self).func_body@,
                self.body_offset == old(self).body_offset,
                m == old(self).module,
                locals == old(self).locals@,
                bt0 == old(self).else_blockty,
                base_offset == base as u32,
                ops_valid(m, locals, bt0, ops@, base),
                run(m, locals, bt0, all.take(i as int)) == (type_stack@, self.else_blockty),
                codes@.len() == i + 1,
                is_start_code(codes@[0]),
                forall|k: int|
                    0 <= k < i ==> #[trigger] code_matches(m, locals, bt0, lv, ops@, base, codes@, k),
            decreases ops@.len() - i,
        {
            let op = ops[i].op;
            assert(rel_offset(ops@[i as int].position, base) >= 0);
            let offset: u32 = ops[i].position as u32 - base_offset;
            assert(op_refs_ok(m, locals.len(), ops@[i as int].op));

            // an unsupported operator leaves the stack as it was
            let _result = self.dispatch(&mut type_stack, &op, listing[i].0.as_str());

            let mut callee_return_size: u32 = 0;
            match op {
                Op::Call { function_index } => {
                    // the callee's results follow the return address
                    let callee_func_type = self.module.get_type_by_func(function_index);
                    callee_return_size = callee_func_type.results.len() as u32;
                },
                _ => {},
            }

            let snapshot = type_stack.clone();
            assert(snapshot@ =~= type_stack@);
            let operator = listing[i].0.clone();
            let ghost old_codes = codes@;
            codes.push(CodePos { opcode: op, operator, offset, type_stack: snapshot, callee_return_size });

            proof {
                assert(all.take(i + 1).drop_last() =~= all.take(i as int));
                assert(all.take(i + 1).last() == all[i as int]);
                assert(run(m, locals, bt0, all.take(i + 1)) == (type_stack@, self.else_blockty));
                assert forall|k: int| 0 <= k < i + 1 implies #[trigger] code_matches(
                    m,
                    locals,
                    bt0,
                    lv,
                    ops@,
                    base,
                    codes@,
                    k,
                ) by {
                    if k < i {
                        assert(code_matches(m, locals, bt0, lv, ops@, base, old_codes, k));
                        assert(codes@[k + 1] == old_codes[k + 1]);
                    }
                }
            }
            i = i + 1;
        }
        proof {
            assert(all.take(ops@.len() as int) =~= all);
        }
        self.codes = codes;
    }

    /// Reads the operators of the body and analyses them.
    ///
    /// The outcome is `construct_outcome`: on success `codes` becomes a
    /// start entry followed by one entry per operator (see `code_matches`),
    /// the type stack starting empty and each operator running on it as
    /// `dispatch` does, an unsupported one leaving it unchanged. When the
    /// body cannot be read to its end, the error is the reader's, `codes`
    /// stays, and the `if`s read before the malformed operator have set the
    /// `else` block type. On any other error nothing changes.
    pub fn construct(&mut self) -> (r: Result<(), String>)
        ensures
            construct_outcome(*old(self), *final(self), r),
    {
        let len: u64 = self.func_body.len() as u64;
        if self.body_offset > u64::MAX - len {
            return Err(String::from_str(END_TEXT));
        }
        let end: u64 = self.body_offset + len;
        let read = read_operators(self.func_body.as_slice(), self.body_offset);
        let (base, listing, failure) = match read {
            Ok(x) => x,
            Err(e) => {
                return Err(e);
            },
        };
        match failure {
            Some(e) => {
                self.else_blockty = self.blockty_after_listing(&listing);
                return Err(e);
            },
            None => {},
        }
        let ops = decode(&listing, end);
        if !self.ops_ok(&ops, base) {
            return Err(String::from_str(INVALID_TEXT));
        }
        self.record(&listing, &ops, base);
        Ok(())
    }

    /// The `else` block type after the operators of `listing`.
    fn blockty_after_listing(&self, listing: &Vec<(String, u64)>) -> (r: BlockTy)
        ensures
            r == blockty_after(self.else_blockty, listing_ops(listing_view(listing@))),
    {
        let ghost all = listing_ops(listing_view(listing@));
        let mut bt = self.else_blockty;
        let mut i: usize = 0;
        while i < listing.len()
            invariant
                i <= listing@.len(),
                all == listing_ops(listing_view(listing@)),
                bt == blockty_after(self.else_blockty, all.take(i as int)),
            decreases listing@.len() - i,
        {
            let op = op_from_text_exec(listing[i].0.as_str());
            assert(all.take(i + 1).drop_last() =~= all.take(i as int));
            bt = match op {
                Op::If { blockty } => blockty,
                _ => bt,
            };
            i = i + 1;
        }
        assert(all.take(listing@.len() as int) =~= all);
        bt
    }
}

/// The message when the body ends past the largest position.
pub const END_TEXT: &'static str = "the body ends past the largest position";

/// The message when an operator cannot be analysed.
pub const INVALID_TEXT: &'static str = "an operator refers to a missing function, type, local or global";

/// The position just past the body.
pub open spec fn body_end(f: BytecodeFunction) -> int {
    f.body_offset + f.func_body@.len()
}

/// `construct` succeeds: the body ends within the largest position, reads
/// to its end, and its operators are valid.
pub open spec fn construct_ok(f: BytecodeFunction) -> bool {
    &&& body_end(f) <= u64::MAX
    &&& spec_read_operators(f.func_body@, f.body_offset) matches Ok((base, listing, None))
    &&& ops_valid(f.module, f.locals@, f.else_blockty, decode_ops(listing, body_end(f) as u64), base)
}

/// What `construct` does on the function `f`: `g` is the function after
/// it and `r` its result.
pub open spec fn construct_outcome(f: BytecodeFunction, g: BytecodeFunction, r: Result<(), String>) -> bool {
    if body_end(f) > u64::MAX {
        &&& r matches Err(e) && e@ == END_TEXT@
        &&& g == f
    } else {
        match spec_read_operators(f.func_body@, f.body_offset) {
            Err(msg) => {
                &&& r matches Err(e) && e@ == msg
                &&& g == f
            },
            Ok((base, listing, Some(msg))) => {
                &&& r matches Err(e) && e@ == msg
                &&& g == (BytecodeFunction {
                    else_blockty: blockty_after(f.else_blockty, listing_ops(listing)),
                    ..f
                })
            },
            Ok((base, listing, None)) => {
                let ops = decode_ops(listing, body_end(f) as u64);
                if !ops_valid(f.module, f.locals@, f.else_blockty, ops, base) {
                    &&& r matches Err(e) && e@ == INVALID_TEXT@
                    &&& g == f
                } else {
                    &&& r is Ok
                    &&& g.module == f.module
                    &&& g.func_body@ == f.func_body@
                    &&& g.body_offset == f.body_offset
                    &&& g.locals@ == f.locals@
                    &&& g.local_types@ == f.local_types@
                    &&& g.else_blockty == run(f.module, f.locals@, f.else_blockty, op_seq(ops)).1
                    &&& g.codes@.len() == ops.len() + 1
                    &&& is_start_code(g.codes@[0])
                    &&& forall|i: int|
                        0 <= i < ops.len() ==> #[trigger] code_matches(
                            f.module,
                            f.locals@,
                            f.else_blockty,
                            listing,
                            ops,
                            base,
                            g.codes@,
                            i,
                        )
                }
            },
        }
    }
}

/// The operators of `listing`, each read back from its text; each ends
/// where the next starts, the last at `end`.
fn decode(listing: &Vec<(String, u64)>, end: u64) -> (r: Vec<DecodedOp>)
    ensures
        r@ == decode_ops(listing_view(listing@), end),
        forall|i: int| 0 <= i < r@.len() ==> (#[trigger] r@[i]).op == op_from_text(listing@[i].0@),
{
    let ghost lv = listing_view(listing@);
    let n: usize = listing.len();
    let mut r: Vec<DecodedOp> = Vec::new();
    let mut i: usize = 0;
    while i < n
        invariant
            n == listing@.len(),
            lv == listing_view(listing@),
            i <= n,
            r@ == decode_ops(lv, end).take(i as int),
        decreases n - i,
    {
        let op = op_from_text_exec(listing[i].0.as_str());
        let position: u64 = if i + 1 < n {
            listing[i + 1].1
        } else {
            end
        };
        r.push(DecodedOp { op, position });
        assert(r@ =~= decode_ops(lv, end).take(i + 1));
        i = i + 1;
    }
    assert(r@ =~= decode_ops(lv, end));
    r
}

/// Popping `a` entries and then `b` entries pops `a + b` entries.
pub proof fn lemma_pop_n_pop_n(s: Seq<u8>, a: nat, b: nat)
    ensures
        pop_n(pop_n(s, a), b) == pop_n(s, a + b),
{
    assert(pop_n(pop_n(s, a), b) =~= pop_n(s, a + b));
}

} // verus!
