use vstd::prelude::*;

use crate::function::{
    body_end, construct_outcome, decode_ops, spec_read_operators, BytecodeFunction, ops_valid, blockty_ok,
    code_matches, is_start_code, is_supported, op_refs_ok, op_seq, pop_n, run, stack_effect, step_stack,
    CodePos,
};
use crate::module::Module;
use crate::op::{DecodedOp, Op};
use crate::opcode::{has_signature, op_signature};
use crate::types::{slot_fits, slots_fit, valty_size, valty_sizes, valty_wasmtype, valty_wasmtypes, BlockTy, ValTy, WasmType};

verus! {

/// The size that a value type takes on the type stack is the size of its
/// operand type.
pub proof fn lemma_size_matches_operand_type(t: ValTy)
    ensures
        slot_fits(valty_size(t), valty_wasmtype(t)),
{
}

/// The sizes of a sequence of value types fit their operand types.
pub proof fn lemma_sizes_match_operand_types(ts: Seq<ValTy>)
    ensures
        slots_fit(valty_sizes(ts), valty_wasmtypes(ts)),
{
    assert forall|i: int| 0 <= i < valty_sizes(ts).len() implies #[trigger] slot_fits(
        valty_sizes(ts)[i],
        valty_wasmtypes(ts)[i],
    ) by {
        lemma_size_matches_operand_type(ts[i]);
    }
}

/// Every operator that has a signature is handled by the type-stack
/// simulation.
pub proof fn lemma_signature_implies_supported(op: Op)
    requires
        has_signature(op),
    ensures
        is_supported(op),
{
}

/// Operands of type `a` may stand where the type `b` is expected: `b` is
/// `Any`, or both are concrete types of the same size.
pub open spec fn fits_into(a: WasmType, b: WasmType) -> bool {
    ||| b is Any
    ||| (a is I32 || a is F32) && (b is I32 || b is F32)
    ||| (a is I64 || a is F64) && (b is I64 || b is F64)
    ||| a is V128 && b is V128
    ||| a is Ref && b is Ref
}

/// Popping `p` of the operands `ins` on top of `s` and pushing `pushes`
/// leaves operands of the types `outs` on top of the untouched rest.
proof fn lemma_pop_push(s: Seq<u8>, ins: Seq<WasmType>, outs: Seq<WasmType>, p: nat, pushes: Seq<u8>)
    requires
        p <= ins.len() <= s.len(),
        slots_fit(s.skip(s.len() - ins.len()), ins),
        outs.len() == ins.len() - p + pushes.len(),
        forall|j: int| 0 <= j < ins.len() - p ==> fits_into(#[trigger] ins[j], outs[j]),
        forall|j: int|
            0 <= j < pushes.len() ==> slot_fits(#[trigger] pushes[j], outs[ins.len() - p + j]),
    ensures
        ({
            let keep = s.len() - ins.len();
            let after = pop_n(s, p) + pushes;
            &&& after.len() == keep + outs.len()
            &&& after.take(keep) == s.take(keep)
            &&& slots_fit(after.skip(keep), outs)
        }),
{
    let keep = s.len() - ins.len();
    let after = pop_n(s, p) + pushes;
    assert(after.take(keep) =~= s.take(keep));
    let top = s.skip(keep);
    assert forall|j: int| 0 <= j < after.skip(keep).len() implies #[trigger] slot_fits(
        after.skip(keep)[j],
        outs[j],
    ) by {
        if j < ins.len() - p {
            assert(after.skip(keep)[j] == top[j]);
            assert(slot_fits(top[j], ins[j]));
            assert(fits_into(ins[j], outs[j]));
        } else {
            assert(after.skip(keep)[j] == pushes[j - (ins.len() - p)]);
        }
    }
}

/// The local sizes agree with the local operand types.
pub open spec fn locals_agree(locals: Seq<u8>, local_types: Seq<WasmType>) -> bool {
    &&& locals.len() == local_types.len()
    &&& forall|i: int| 0 <= i < locals.len() ==> #[trigger] slot_fits(locals[i], local_types[i])
}

/// The operators whose effect on the type stack is that of their
/// signature. The others are the structured-control operators `if`,
/// `else`, `br` and `return`, and `memory.atomic.wait32`, whose effect
/// takes two operands where its signature lists three.
pub open spec fn effect_follows_signature(op: Op) -> bool {
    !(op is If || op is Else || op is Br || op is Return || op is MemoryAtomicWait32)
}

/// The type-stack simulation agrees with the operator signatures: when the
/// top of the stack holds operands of the types the operator consumes, the
/// operator keeps the rest of the stack and leaves on top values of the
/// types it produces.
pub proof fn lemma_step_follows_signature(
    m: Module,
    locals: Seq<u8>,
    local_types: Seq<WasmType>,
    bt: BlockTy,
    s: Seq<u8>,
    op: Op,
)
    requires
        op_refs_ok(m, locals.len(), op),
        locals_agree(locals, local_types),
        has_signature(op),
        effect_follows_signature(op),
        op_signature(m, local_types, op).0.len() <= s.len(),
        slots_fit(
            s.skip(s.len() - op_signature(m, local_types, op).0.len()),
            op_signature(m, local_types, op).0,
        ),
    ensures
        ({
            let sig = op_signature(m, local_types, op);
            let keep = s.len() - sig.0.len();
            let after = step_stack(m, locals, bt, s, op);
            &&& after.len() == keep + sig.1.len()
            &&& after.take(keep) == s.take(keep)
            &&& slots_fit(after.skip(keep), sig.1)
        }),
{
    let sig = op_signature(m, local_types, op);
    let e = stack_effect(m, locals, bt, op);
    match op {
        Op::Call { function_index } => {
            lemma_sizes_match_operand_types(m.spec_func_type(function_index as int).results@);
        },
        Op::CallIndirect { type_index } => {
            lemma_sizes_match_operand_types(m.types@[type_index as int].results@);
        },
        _ => {},
    }
    lemma_pop_push(s, sig.0, sig.1, e.1, e.2);
}

/// `br` and `return` leave the type stack empty.
pub proof fn lemma_branch_empties_stack(m: Module, locals: Seq<u8>, bt: BlockTy, s: Seq<u8>, op: Op)
    requires
        op is Br || op is Return,
    ensures
        step_stack(m, locals, bt, s, op) == Seq::<u8>::empty(),
{
    assert(step_stack(m, locals, bt, s, op) =~= Seq::<u8>::empty());
}

/// An operator the analysis does not handle leaves the type stack as it
/// was.
pub proof fn lemma_unsupported_keeps_stack(m: Module, locals: Seq<u8>, bt: BlockTy, s: Seq<u8>, op: Op)
    requires
        !is_supported(op),
    ensures
        step_stack(m, locals, bt, s, op) == s,
{
    assert(step_stack(m, locals, bt, s, op) =~= s);
}

/// In analysed code, each entry's type stack is the previous entry's type
/// stack with the entry's operator run on it (under the `else` block type
/// left by the operators before it).
pub proof fn lemma_consecutive_codes(
    m: Module,
    locals: Seq<u8>,
    bt0: BlockTy,
    listing: Seq<(Seq<char>, u64)>,
    ops: Seq<DecodedOp>,
    base: u64,
    codes: Seq<CodePos>,
    i: int,
)
    requires
        codes.len() == ops.len() + 1,
        is_start_code(codes[0]),
        forall|k: int|
            0 <= k < ops.len() ==> #[trigger] code_matches(m, locals, bt0, listing, ops, base, codes, k),
        0 <= i < ops.len(),
    ensures
        codes[i + 1].type_stack@ == step_stack(
            m,
            locals,
            run(m, locals, bt0, op_seq(ops).take(i)).1,
            codes[i].type_stack@,
            ops[i].op,
        ),
{
    assert(code_matches(m, locals, bt0, listing, ops, base, codes, i));
    if i > 0 {
        assert(code_matches(m, locals, bt0, listing, ops, base, codes, i - 1));
    }
    assert(op_seq(ops).take(i + 1).drop_last() =~= op_seq(ops).take(i));
    assert(op_seq(ops).take(0) =~= Seq::<Op>::empty());
}

/// Some operator of `ops` is an `if`.
pub open spec fn has_if(ops: Seq<Op>) -> bool {
    exists|j: int| 0 <= j < ops.len() && (#[trigger] ops[j] is If)
}

/// Every `else` of `ops` comes after some `if`.
pub open spec fn else_after_if(ops: Seq<Op>) -> bool {
    forall|i: int| 0 <= i < ops.len() && (#[trigger] ops[i] is Else) ==> has_if(ops.take(i))
}

/// The `else` block type changes only through `if`: after a run it is the
/// block type of the last `if`, or the starting one when there is no `if`.
pub proof fn lemma_blockty_set_only_by_if(m: Module, locals: Seq<u8>, bt0: BlockTy, ops: Seq<Op>)
    ensures
        !has_if(ops) ==> run(m, locals, bt0, ops).1 == bt0,
        forall|j: int|
            0 <= j < ops.len() && (#[trigger] ops[j] is If) && (forall|k: int|
                j < k < ops.len() ==> !(#[trigger] ops[k] is If)) ==> run(m, locals, bt0, ops).1
                == ops[j]->blockty,
    decreases ops.len(),
{
    if ops.len() > 0 {
        let prev = ops.drop_last();
        lemma_blockty_set_only_by_if(m, locals, bt0, prev);
        if !has_if(ops) {
            assert(!has_if(prev)) by {
                if has_if(prev) {
                    let j = choose|j: int| 0 <= j < prev.len() && (#[trigger] prev[j] is If);
                    assert(ops[j] is If);
                }
            }
            assert(!(ops[ops.len() - 1] is If));
        }
        assert forall|j: int|
            0 <= j < ops.len() && (#[trigger] ops[j] is If) && (forall|k: int|
                j < k < ops.len() ==> !(#[trigger] ops[k] is If)) implies run(m, locals, bt0, ops).1
            == ops[j]->blockty by {
            if j < ops.len() - 1 {
                assert(!(ops[ops.len() - 1] is If));
                assert(prev[j] is If);
                assert forall|k: int| j < k < prev.len() implies !(#[trigger] prev[k] is If) by {
                    assert(!(ops[k] is If));
                }
            }
        }
    }
}

/// When every `else` comes after an `if`, a run does not depend on the
/// starting `else` block type.
pub proof fn lemma_run_independent_of_start_blockty(
    m: Module,
    locals: Seq<u8>,
    bt0: BlockTy,
    bt1: BlockTy,
    ops: Seq<Op>,
)
    requires
        else_after_if(ops),
    ensures
        run(m, locals, bt0, ops).0 == run(m, locals, bt1, ops).0,
        has_if(ops) ==> run(m, locals, bt0, ops).1 == run(m, locals, bt1, ops).1,
    decreases ops.len(),
{
    if ops.len() > 0 {
        let prev = ops.drop_last();
        let n = ops.len() - 1;
        assert(else_after_if(prev)) by {
            assert forall|i: int| 0 <= i < prev.len() && (#[trigger] prev[i] is Else) implies has_if(
                prev.take(i),
            ) by {
                assert(ops[i] is Else);
                assert(prev.take(i) =~= ops.take(i));
            }
        }
        lemma_run_independent_of_start_blockty(m, locals, bt0, bt1, prev);
        if ops[n] is Else {
            assert(prev =~= ops.take(n));
        }
        if has_if(ops) && !has_if(prev) {
            assert(ops[n] is If) by {
                let j = choose|j: int| 0 <= j < ops.len() && (#[trigger] ops[j] is If);
                if j < n {
                    assert(prev[j] is If);
                }
            }
        }
        if has_if(prev) {
            let j = choose|j: int| 0 <= j < prev.len() && (#[trigger] prev[j] is If);
            assert(ops[j] is If);
        }
    }
}

/// When every `else` comes after an `if`, the analysed code does not depend
/// on the `else` block type the analysis starts from: two analyses of the
/// same operators from any two block types record the same entries.
pub proof fn lemma_codes_independent_of_start_blockty(
    m: Module,
    locals: Seq<u8>,
    bt0: BlockTy,
    bt1: BlockTy,
    listing: Seq<(Seq<char>, u64)>,
    ops: Seq<DecodedOp>,
    base: u64,
    codes0: Seq<CodePos>,
    codes1: Seq<CodePos>,
)
    requires
        else_after_if(op_seq(ops)),
        forall|k: int|
            0 <= k < ops.len() ==> #[trigger] code_matches(m, locals, bt0, listing, ops, base, codes0, k),
        forall|k: int|
            0 <= k < ops.len() ==> #[trigger] code_matches(m, locals, bt1, listing, ops, base, codes1, k),
    ensures
        forall|i: int|
            0 < i <= ops.len() ==> {
                &&& (#[trigger] codes0[i]).opcode == codes1[i].opcode
                &&& codes0[i].operator@ == codes1[i].operator@
                &&& codes0[i].offset == codes1[i].offset
                &&& codes0[i].type_stack@ == codes1[i].type_stack@
                &&& codes0[i].callee_return_size == codes1[i].callee_return_size
            },
{
    assert forall|i: int| 0 < i <= ops.len() implies {
        &&& (#[trigger] codes0[i]).opcode == codes1[i].opcode
        &&& codes0[i].operator@ == codes1[i].operator@
        &&& codes0[i].offset == codes1[i].offset
        &&& codes0[i].type_stack@ == codes1[i].type_stack@
        &&& codes0[i].callee_return_size == codes1[i].callee_return_size
    } by {
        assert(code_matches(m, locals, bt0, listing, ops, base, codes0, i - 1));
        assert(code_matches(m, locals, bt1, listing, ops, base, codes1, i - 1));
        let pre = op_seq(ops).take(i);
        assert(else_after_if(pre)) by {
            assert forall|j: int| 0 <= j < pre.len() && (#[trigger] pre[j] is Else) implies has_if(
                pre.take(j),
            ) by {
                assert(op_seq(ops)[j] is Else);
                assert(pre.take(j) =~= op_seq(ops).take(j));
            }
        }
        lemma_run_independent_of_start_blockty(m, locals, bt0, bt1, pre);
    }
}

/// A prefix of operators whose `else`s all follow an `if` has the same
/// property.
proof fn lemma_else_after_if_prefix(ops: Seq<Op>, n: int)
    requires
        else_after_if(ops),
        0 <= n <= ops.len(),
    ensures
        else_after_if(ops.take(n)),
{
    let pre = ops.take(n);
    assert forall|j: int| 0 <= j < pre.len() && (#[trigger] pre[j] is Else) implies has_if(pre.take(j)) by {
        assert(ops[j] is Else);
        assert(pre.take(j) =~= ops.take(j));
    }
}

/// Analysing a body a second time gives the same entries: when every
/// `else` of the body follows an `if`, a `construct` that succeeded is
/// followed by one that succeeds too and records the same codes.
pub proof fn lemma_construct_twice(
    f: BytecodeFunction,
    g1: BytecodeFunction,
    g2: BytecodeFunction,
    r1: Result<(), String>,
    r2: Result<(), String>,
)
    requires
        construct_outcome(f, g1, r1),
        r1 is Ok,
        construct_outcome(g1, g2, r2),
        else_after_if(
            op_seq(
                decode_ops(
                    spec_read_operators(f.func_body@, f.body_offset)->Ok_0.1,
                    body_end(f) as u64,
                ),
            ),
        ),
    ensures
        r2 is Ok,
        g2.codes@.len() == g1.codes@.len(),
        forall|i: int|
            0 <= i < g1.codes@.len() ==> {
                &&& (#[trigger] g2.codes@[i]).opcode == g1.codes@[i].opcode
                &&& g2.codes@[i].operator@ == g1.codes@[i].operator@
                &&& g2.codes@[i].offset == g1.codes@[i].offset
                &&& g2.codes@[i].type_stack@ == g1.codes@[i].type_stack@
                &&& g2.codes@[i].callee_return_size == g1.codes@[i].callee_return_size
            },
{
    let (base, listing, failure) = spec_read_operators(f.func_body@, f.body_offset)->Ok_0;
    assert(body_end(g1) == body_end(f));
    let ops = decode_ops(listing, body_end(f) as u64);
    let all = op_seq(ops);
    let m = f.module;
    let locals = f.locals@;
    assert(ops_valid(m, locals, g1.else_blockty, ops, base)) by {
        assert forall|i: int| 0 <= i < ops.len() && (#[trigger] ops[i].op is Else) implies blockty_ok(
            m,
            run(m, locals, g1.else_blockty, all.take(i)).1,
        ) by {
            assert(all[i] is Else);
            assert(has_if(all.take(i)));
            lemma_else_after_if_prefix(all, i);
            lemma_run_independent_of_start_blockty(m, locals, f.else_blockty, g1.else_blockty, all.take(i));
        }
    }
    lemma_codes_independent_of_start_blockty(
        m,
        locals,
        f.else_blockty,
        g1.else_blockty,
        listing,
        ops,
        base,
        g1.codes@,
        g2.codes@,
    );
    assert forall|i: int| 0 <= i < g1.codes@.len() implies {
        &&& (#[trigger] g2.codes@[i]).opcode == g1.codes@[i].opcode
        &&& g2.codes@[i].operator@ == g1.codes@[i].operator@
        &&& g2.codes@[i].offset == g1.codes@[i].offset
        &&& g2.codes@[i].type_stack@ == g1.codes@[i].type_stack@
        &&& g2.codes@[i].callee_return_size == g1.codes@[i].callee_return_size
    } by {
        if i == 0 {
            assert(is_start_code(g1.codes@[0]));
            assert(is_start_code(g2.codes@[0]));
        }
    }
}

} // verus!
