//! Laws on reading immediates back from an operator's text: a number
//! written in decimal reads as itself, and so does a block type.

use vstd::prelude::*;

use crate::op::Op;
use crate::op_laws::{lemma_text_names, op_name};
use crate::text::{
    digits_value, immediate, is_digit, name_is, number_at, op_from_text, parse_blockty, scan_to, starts_at,
};
use crate::types::{BlockTy, ValTy};

verus! {

/// The character of the decimal digit `d`.
pub open spec fn digit_char(d: nat) -> char {
    if d == 0 {
        '0'
    } else if d == 1 {
        '1'
    } else if d == 2 {
        '2'
    } else if d == 3 {
        '3'
    } else if d == 4 {
        '4'
    } else if d == 5 {
        '5'
    } else if d == 6 {
        '6'
    } else if d == 7 {
        '7'
    } else if d == 8 {
        '8'
    } else {
        '9'
    }
}

/// `n` written in decimal, without leading zeros.
pub open spec fn decimal(n: nat) -> Seq<char>
    decreases n,
{
    if n < 10 {
        seq![digit_char(n)]
    } else {
        decimal(n / 10).push(digit_char(n % 10))
    }
}

/// The value of the digits `ds` read after the value `acc`.
pub open spec fn digits_fold(acc: nat, ds: Seq<char>) -> nat
    decreases ds.len(),
{
    if ds.len() == 0 {
        acc
    } else {
        digits_fold(acc, ds.drop_last()) * 10 + (ds.last() as nat - '0' as nat) as nat
    }
}

/// `s` holds no `c`.
pub open spec fn lacks(s: Seq<char>, c: char) -> bool {
    forall|k: int| 0 <= k < s.len() ==> s[k] != c
}

proof fn lemma_digit_char(d: nat)
    requires
        d < 10,
    ensures
        is_digit(digit_char(d)),
        digit_char(d) as nat - '0' as nat == d,
{
}

proof fn lemma_decimal(n: nat)
    ensures
        decimal(n).len() >= 1,
        forall|k: int| 0 <= k < decimal(n).len() ==> is_digit(#[trigger] decimal(n)[k]),
        digits_fold(0, decimal(n)) == n,
    decreases n,
{
    if n < 10 {
        lemma_digit_char(n);
        let ds = decimal(n);
        assert(ds.drop_last() =~= Seq::<char>::empty());
        assert(ds.last() == digit_char(n));
        assert(digits_fold(0, ds.drop_last()) == 0);
        assert(digits_fold(0, ds) == 0 * 10 + n);
    } else {
        lemma_decimal(n / 10);
        lemma_digit_char(n % 10);
        let ds = decimal(n);
        assert(ds.drop_last() =~= decimal(n / 10));
        assert(ds.last() == digit_char(n % 10));
        assert(digits_fold(0, ds) == (n / 10) * 10 + n % 10);
        assert((n / 10) * 10 + n % 10 == n) by (nonlinear_arith);
        assert forall|k: int| 0 <= k < ds.len() implies is_digit(#[trigger] ds[k]) by {
            if k < ds.len() - 1 {
                assert(ds[k] == decimal(n / 10)[k]);
            }
        }
    }
}

/// Reading the digits from `i` to `j` moves the accumulator on by them.
proof fn lemma_digits_value_span(t: Seq<char>, i: nat, j: nat, acc: nat)
    requires
        i <= j <= t.len(),
        forall|k: int| i <= k < j ==> is_digit(#[trigger] t[k]),
    ensures
        digits_value(t, i, acc) == digits_value(t, j, digits_fold(acc, t.subrange(i as int, j as int))),
    decreases j - i,
{
    if j > i {
        let j1: nat = (j - 1) as nat;
        lemma_digits_value_span(t, i, j1, acc);
        let sub = t.subrange(i as int, j as int);
        assert(sub.drop_last() =~= t.subrange(i as int, j1 as int));
        assert(sub.last() == t[j1 as int]);
        assert(is_digit(t[j1 as int]));
    } else {
        assert(t.subrange(i as int, j as int) =~= Seq::<char>::empty());
    }
}

proof fn lemma_scan_to_at(t: Seq<char>, c: char, i: nat, j: nat)
    requires
        i <= j <= t.len(),
        forall|k: int| i <= k < j ==> #[trigger] t[k] != c,
        j == t.len() || t[j as int] == c,
    ensures
        scan_to(t, c, i) == j,
    decreases j - i,
{
    if i < j {
        lemma_scan_to_at(t, c, i + 1, j);
    }
}

/// The number written in decimal at index `i` of `t` and followed by no
/// further digit reads as itself.
proof fn lemma_number_at_decimal(t: Seq<char>, i: nat, n: u32)
    requires
        i + decimal(n as nat).len() <= t.len(),
        t.subrange(i as int, (i + decimal(n as nat).len()) as int) == decimal(n as nat),
        i + decimal(n as nat).len() == t.len() || !is_digit(t[(i + decimal(n as nat).len()) as int]),
    ensures
        number_at(t, i) == Some(n),
{
    let ds = decimal(n as nat);
    let j: nat = i + ds.len();
    lemma_decimal(n as nat);
    assert forall|k: int| i <= k < j implies is_digit(#[trigger] t[k]) by {
        assert(t[k] == t.subrange(i as int, j as int)[k - i]);
    }
    lemma_digits_value_span(t, i, j, 0);
    assert(t[i as int] == ds[0]);
}

/// The first immediate of the text `name { field: n...` is `n`, for every
/// name and field name without a colon and whatever follows the number
/// but a further digit.
pub proof fn lemma_immediate_reads_number(name: Seq<char>, field: Seq<char>, n: u32, tail: Seq<char>)
    requires
        lacks(name, ':'),
        lacks(field, ':'),
        tail.len() == 0 || !is_digit(tail[0]),
    ensures
        immediate(name + " { "@ + field + ": "@ + decimal(n as nat) + tail) == Some(n),
{
    reveal_strlit(" { ");
    reveal_strlit(": ");
    let ds = decimal(n as nat);
    let t = name + " { "@ + field + ": "@ + ds + tail;
    let j: nat = name.len() + 3 + field.len();
    assert forall|k: int| 0 <= k < j implies #[trigger] t[k] != ':' by {
        if k < name.len() {
            assert(t[k] == name[k]);
        } else if k < name.len() + 3 {
            assert(t[k] == " { "@[k - name.len()]);
        } else {
            assert(t[k] == field[k - name.len() - 3]);
        }
    }
    assert(t[j as int] == ':');
    lemma_scan_to_at(t, ':', 0, j);
    let i: nat = j + 2;
    assert(t.subrange(i as int, (i + ds.len()) as int) =~= ds);
    if tail.len() > 0 {
        assert(t[(i + ds.len()) as int] == tail[0]);
    }
    lemma_number_at_decimal(t, i, n);
}

/// How a value type is shown.
pub open spec fn valty_text(v: ValTy) -> Seq<char> {
    match v {
        ValTy::I32 => "I32"@,
        ValTy::I64 => "I64"@,
        ValTy::F32 => "F32"@,
        ValTy::F64 => "F64"@,
        ValTy::V128 => "V128"@,
        ValTy::Ref => "Ref"@,
    }
}

/// How a block type is shown.
pub open spec fn blockty_text(b: BlockTy) -> Seq<char> {
    match b {
        BlockTy::Empty => "Empty"@,
        BlockTy::Type(v) => "Type("@ + valty_text(v) + ")"@,
        BlockTy::FuncType(n) => "FuncType("@ + decimal(n as nat) + ")"@,
    }
}

/// The block type shown in the text `name { blockty: b...` reads as `b`,
/// for every name without a colon, whatever follows.
pub proof fn lemma_blockty_reads_back(name: Seq<char>, b: BlockTy, tail: Seq<char>)
    requires
        lacks(name, ':'),
    ensures
        parse_blockty(name + " { blockty: "@ + blockty_text(b) + tail) == Some(b),
{
    reveal_strlit(" { blockty: ");
    reveal_strlit("Empty");
    reveal_strlit("FuncType(");
    reveal_strlit("Type(");
    reveal_strlit(")");
    reveal_strlit("I32");
    reveal_strlit("I64");
    reveal_strlit("F32");
    reveal_strlit("F64");
    reveal_strlit("V128");
    reveal_strlit("Ref");
    let bt = blockty_text(b);
    let t = name + " { blockty: "@ + bt + tail;
    let j: nat = name.len() + 10;
    assert forall|k: int| 0 <= k < j implies #[trigger] t[k] != ':' by {
        if k < name.len() {
            assert(t[k] == name[k]);
        } else {
            assert(t[k] == " { blockty: "@[k - name.len()]);
        }
    }
    assert(t[j as int] == ':');
    lemma_scan_to_at(t, ':', 0, j);
    let i: int = (j + 2) as int;
    assert(t.subrange(i, i + bt.len()) =~= bt);
    match b {
        BlockTy::Empty => {
            assert(t.subrange(i, i + 5) =~= "Empty"@);
        },
        BlockTy::Type(v) => {
            assert(t.subrange(i, i + 5) =~= "Type("@);
            assert(t[i] != "Empty"@[0]);
            assert(t[i] != "FuncType("@[0]);
            assert(!starts_at(t, i, "Empty"@));
            assert(!starts_at(t, i, "FuncType("@));
            let w = valty_text(v);
            assert(t.subrange(i + 5, i + 5 + w.len()) =~= w);
            match v {
                ValTy::I32 => {
                    assert(t.subrange(i + 5, i + 8) =~= "I32"@);
                },
                ValTy::I64 => {
                    assert(t.subrange(i + 5, i + 8) =~= "I64"@);
                    assert(t[i + 6] != "I32"@[1]);
                },
                ValTy::F32 => {
                    assert(t.subrange(i + 5, i + 8) =~= "F32"@);
                    assert(t[i + 5] != "I32"@[0]);
                    assert(t[i + 5] != "I64"@[0]);
                },
                ValTy::F64 => {
                    assert(t.subrange(i + 5, i + 8) =~= "F64"@);
                    assert(t[i + 5] != "I32"@[0]);
                    assert(t[i + 5] != "I64"@[0]);
                    assert(t[i + 6] != "F32"@[1]);
                },
                ValTy::V128 => {
                    assert(t.subrange(i + 5, i + 9) =~= "V128"@);
                    assert(t[i + 5] != "I32"@[0]);
                    assert(t[i + 5] != "I64"@[0]);
                    assert(t[i + 5] != "F32"@[0]);
                    assert(t[i + 5] != "F64"@[0]);
                },
                ValTy::Ref => {
                    assert(t[i + 5] != "I32"@[0]);
                    assert(t[i + 5] != "I64"@[0]);
                    assert(t[i + 5] != "F32"@[0]);
                    assert(t[i + 5] != "F64"@[0]);
                    assert(t[i + 5] != "V128"@[0]);
                },
            }
        },
        BlockTy::FuncType(n) => {
            assert(t[i] != "Empty"@[0]);
            assert(!starts_at(t, i, "Empty"@));
            assert(t.subrange(i, i + 9) =~= "FuncType("@);
            let ds = decimal(n as nat);
            let p: nat = (i + 9) as nat;
            assert(t.subrange(p as int, (p + ds.len()) as int) =~= ds);
            assert(t[(p + ds.len()) as int] == ')');
            lemma_number_at_decimal(t, p, n);
        },
    }
}

/// The name of an operator's first immediate, for the operators whose
/// immediates the analysis reads.
pub open spec fn field_name(op: Op) -> Seq<char> {
    match op {
        Op::If { .. } => "blockty"@,
        Op::Call { .. } => "function_index"@,
        Op::CallIndirect { .. } => "type_index"@,
        Op::LocalGet { .. } => "local_index"@,
        _ => "global_index"@,
    }
}

/// How the operators whose immediates the analysis reads are shown, up to
/// their first immediate.
pub open spec fn op_text(op: Op) -> Seq<char> {
    match op {
        Op::If { blockty } => op_name(op) + " { blockty: "@ + blockty_text(blockty),
        Op::Call { function_index: n } => op_name(op) + " { "@ + field_name(op) + ": "@ + decimal(n as nat),
        Op::CallIndirect { type_index: n } => op_name(op) + " { "@ + field_name(op) + ": "@ + decimal(n as nat),
        Op::LocalGet { local_index: n } => op_name(op) + " { "@ + field_name(op) + ": "@ + decimal(n as nat),
        _ => op_name(op) + " { "@ + field_name(op) + ": "@ + decimal(op->global_index as nat),
    }
}

proof fn lemma_name_before_space(name: Seq<char>, rest: Seq<char>)
    requires
        lacks(name, ' '),
        rest.len() > 0,
        rest[0] == ' ',
    ensures
        name_is(name + rest, name),
{
    let t = name + rest;
    assert forall|k: int| 0 <= k < name.len() implies #[trigger] t[k] != ' ' by {
        assert(t[k] == name[k]);
    }
    assert(t[name.len() as int] == ' ');
    lemma_scan_to_at(t, ' ', 0, name.len());
    assert(t.subrange(0, name.len() as int) =~= name);
}

/// Reading back the text of an operator with an index or a block type
/// gives the operator itself, with its immediate, whatever follows the
/// immediate but a further digit.
pub proof fn lemma_immediate_ops_read_back(op: Op, tail: Seq<char>)
    requires
        op is If || op is Call || op is CallIndirect || op is LocalGet || op is GlobalGet,
        tail.len() == 0 || !is_digit(tail[0]),
    ensures
        op_from_text(op_text(op) + tail) == op,
{
    reveal_strlit("If");
    reveal_strlit("Call");
    reveal_strlit("CallIndirect");
    reveal_strlit("LocalGet");
    reveal_strlit("GlobalGet");
    reveal_strlit("blockty");
    reveal_strlit("function_index");
    reveal_strlit("type_index");
    reveal_strlit("local_index");
    reveal_strlit("global_index");
    reveal_strlit(" { ");
    reveal_strlit(" { blockty: ");
    let name = op_name(op);
    let field = field_name(op);
    assert(lacks(name, ':') && lacks(name, ' ')) by {
        assert forall|k: int| 0 <= k < name.len() implies name[k] != ':' && name[k] != ' ' by {}
    }
    assert(lacks(field, ':')) by {
        assert forall|k: int| 0 <= k < field.len() implies field[k] != ':' by {}
    }
    if op is If {
        let b = op->blockty;
        let rest = " { blockty: "@ + blockty_text(b) + tail;
        let t = op_text(op) + tail;
        assert(t =~= name + rest);
        assert(rest[0] == ' ');
        lemma_name_before_space(name, rest);
        assert(t =~= name + " { blockty: "@ + blockty_text(b) + tail);
        lemma_blockty_reads_back(name, b, tail);
        lemma_text_names(op, t);
    } else {
        let n: u32 = if op is Call {
            op->function_index
        } else if op is CallIndirect {
            op->type_index
        } else if op is LocalGet {
            op->local_index
        } else {
            op->global_index
        };
        let rest = " { "@ + field + ": "@ + decimal(n as nat) + tail;
        let t = op_text(op) + tail;
        assert(t =~= name + rest);
        assert(rest[0] == ' ');
        lemma_name_before_space(name, rest);
        assert(t =~= name + " { "@ + field + ": "@ + decimal(n as nat) + tail);
        lemma_immediate_reads_number(name, field, n, tail);
        lemma_text_names(op, t);
    }
}

} // verus!
