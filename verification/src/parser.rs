pub mod expansion;

use vstd::prelude::*;

use crate::types::{ExpandedBuiltIn, MelExpr};

verus! {

/// How many VM instructions a low-level expression compiles to. A literal
/// push, a no-op, an immediate-carrying operator and a loop header are one
/// instruction each; an operator application adds one instruction after
/// its operands; sequences and loop bodies sum their parts.
pub open spec fn num_insts(e: MelExpr) -> nat
    decreases e,
{
    match e {
        MelExpr::Value(_v) => 1,
        MelExpr::BuiltIn(op) => num_insts_builtin(*op),
        MelExpr::Sequence(l) => num_insts_list(l@),
        MelExpr::Hash(_n, e1) => num_insts(*e1) + 1,
        MelExpr::Sigeok(_n, e1, e2, e3) => num_insts(*e1) + num_insts(*e2) + num_insts(*e3) + 1,
        MelExpr::Loop(_n, e1) => 1 + num_insts(*e1),
        MelExpr::Noop => 1,
    }
}

pub open spec fn num_insts_list(l: Seq<MelExpr>) -> nat
    decreases l,
{
    if l.len() == 0 {
        0
    } else {
        num_insts_list(l.drop_last()) + num_insts(l.last())
    }
}

pub open spec fn num_insts_builtin(op: ExpandedBuiltIn<MelExpr>) -> nat
    decreases op,
{
    match op {
        ExpandedBuiltIn::Add(e1, e2) => num_insts(e1) + num_insts(e2) + 1,
        ExpandedBuiltIn::Sub(e1, e2) => num_insts(e1) + num_insts(e2) + 1,
        ExpandedBuiltIn::Mul(e1, e2) => num_insts(e1) + num_insts(e2) + 1,
        ExpandedBuiltIn::Div(e1, e2) => num_insts(e1) + num_insts(e2) + 1,
        ExpandedBuiltIn::Rem(e1, e2) => num_insts(e1) + num_insts(e2) + 1,
        ExpandedBuiltIn::And(e1, e2) => num_insts(e1) + num_insts(e2) + 1,
        ExpandedBuiltIn::Or(e1, e2) => num_insts(e1) + num_insts(e2) + 1,
        ExpandedBuiltIn::Xor(e1, e2) => num_insts(e1) + num_insts(e2) + 1,
        ExpandedBuiltIn::Not(e1) => num_insts(e1) + 1,
        ExpandedBuiltIn::Eql(e1, e2) => num_insts(e1) + num_insts(e2) + 1,
        ExpandedBuiltIn::Lt(e1, e2) => num_insts(e1) + num_insts(e2) + 1,
        ExpandedBuiltIn::Gt(e1, e2) => num_insts(e1) + num_insts(e2) + 1,
        ExpandedBuiltIn::Shl(e1, e2) => num_insts(e1) + num_insts(e2) + 1,
        ExpandedBuiltIn::Shr(e1, e2) => num_insts(e1) + num_insts(e2) + 1,
        ExpandedBuiltIn::ItoB(e1) => num_insts(e1) + 1,
        ExpandedBuiltIn::BtoI(e1) => num_insts(e1) + 1,
        ExpandedBuiltIn::TypeQ(e1) => num_insts(e1) + 1,
        ExpandedBuiltIn::Dup(e1) => num_insts(e1) + 1,
        ExpandedBuiltIn::Vref(e1, e2) => num_insts(e1) + num_insts(e2) + 1,
        ExpandedBuiltIn::Vappend(e1, e2) => num_insts(e1) + num_insts(e2) + 1,
        ExpandedBuiltIn::Vempty => 1,
        ExpandedBuiltIn::Vlen(e1) => num_insts(e1) + 1,
        ExpandedBuiltIn::Vslice(e1, e2, e3) => num_insts(e1) + num_insts(e2) + num_insts(e3) + 1,
        ExpandedBuiltIn::Vset(e1, e2, e3) => num_insts(e1) + num_insts(e2) + num_insts(e3) + 1,
        ExpandedBuiltIn::Vpush(e1, e2) => num_insts(e1) + num_insts(e2) + 1,
        ExpandedBuiltIn::Vcons(e1, e2) => num_insts(e1) + num_insts(e2) + 1,
        ExpandedBuiltIn::Bref(e1, e2) => num_insts(e1) + num_insts(e2) + 1,
        ExpandedBuiltIn::Bappend(e1, e2) => num_insts(e1) + num_insts(e2) + 1,
        ExpandedBuiltIn::Bempty => 1,
        ExpandedBuiltIn::Blen(e1) => num_insts(e1) + 1,
        ExpandedBuiltIn::Bslice(e1, e2, e3) => num_insts(e1) + num_insts(e2) + num_insts(e3) + 1,
        ExpandedBuiltIn::Bset(e1, e2, e3) => num_insts(e1) + num_insts(e2) + num_insts(e3) + 1,
        ExpandedBuiltIn::Bpush(e1, e2) => num_insts(e1) + num_insts(e2) + 1,
        ExpandedBuiltIn::Bcons(e1, e2) => num_insts(e1) + num_insts(e2) + 1,
        ExpandedBuiltIn::Hash(e1) => num_insts(e1) + 1,
        ExpandedBuiltIn::Jmp(_n) => 1,
        ExpandedBuiltIn::Bez(_n) => 1,
        ExpandedBuiltIn::Bnz(_n) => 1,
        ExpandedBuiltIn::Store(_idx) => 1,
        ExpandedBuiltIn::Load(_idx) => 1,
    }
}

proof fn lemma_num_insts_list_take_le(l: Seq<MelExpr>, i: int)
    requires
        0 <= i <= l.len(),
    ensures
        num_insts_list(l.take(i)) <= num_insts_list(l),
    decreases l.len() - i,
{
    if i == l.len() {
        assert(l.take(i) =~= l);
    } else {
        assert(l.take(i + 1).drop_last() =~= l.take(i));
        lemma_num_insts_list_take_le(l, i + 1);
    }
}

/// Statically count the instructions of a compiled body, independent of
/// compiling it; the loop encoding stores this count so the interpreter
/// can skip or repeat the body without re-parsing it.
pub fn count_insts(e: &MelExpr) -> (r: u16)
    requires
        num_insts(*e) <= u16::MAX,
    ensures
        r as nat == num_insts(*e),
    decreases *e,
{
    match e {
        MelExpr::Value(_v) => 1,
        MelExpr::BuiltIn(op) => count_insts_builtin(&**op),
        MelExpr::Sequence(l) => {
            let mut total: u16 = 0;
            let mut i: usize = 0;
            while i < l.len()
                invariant
                    *e == MelExpr::Sequence(*l),
                    i <= l@.len(),
                    num_insts_list(l@) <= u16::MAX,
                    total as nat == num_insts_list(l@.take(i as int)),
                decreases l@.len() - i,
            {
                proof {
                    assert(l@.take(i as int + 1).drop_last() =~= l@.take(i as int));
                    lemma_num_insts_list_take_le(l@, i as int + 1);
                    assert(decreases_to!(*e => (*e)->Sequence_0));
                    assert(decreases_to!((*e)->Sequence_0 => l@));
                    assert(decreases_to!(l@ => l@[i as int]));
                    assert(decreases_to!(*e => l@[i as int]));
                }
                let c = count_insts(&l[i]);
                total = total + c;
                i = i + 1;
            }
            proof {
                assert(l@.take(l@.len() as int) =~= l@);
            }
            total
        },
        MelExpr::Hash(_n, e1) => count_insts(&**e1) + 1,
        MelExpr::Sigeok(_n, e1, e2, e3) => count_insts(&**e1) + count_insts(&**e2) + count_insts(
            &**e3,
        ) + 1,
        MelExpr::Loop(_n, e1) => 1 + count_insts(&**e1),
        MelExpr::Noop => 1,
    }
}

fn count_insts_builtin(op: &ExpandedBuiltIn<MelExpr>) -> (r: u16)
    requires
        num_insts_builtin(*op) <= u16::MAX,
    ensures
        r as nat == num_insts_builtin(*op),
    decreases *op,
{
    match op {
        ExpandedBuiltIn::Add(e1, e2) => count_insts(e1) + count_insts(e2) + 1,
        ExpandedBuiltIn::Sub(e1, e2) => count_insts(e1) + count_insts(e2) + 1,
        ExpandedBuiltIn::Mul(e1, e2) => count_insts(e1) + count_insts(e2) + 1,
        ExpandedBuiltIn::Div(e1, e2) => count_insts(e1) + count_insts(e2) + 1,
        ExpandedBuiltIn::Rem(e1, e2) => count_insts(e1) + count_insts(e2) + 1,
        ExpandedBuiltIn::And(e1, e2) => count_insts(e1) + count_insts(e2) + 1,
        ExpandedBuiltIn::Or(e1, e2) => count_insts(e1) + count_insts(e2) + 1,
        ExpandedBuiltIn::Xor(e1, e2) => count_insts(e1) + count_insts(e2) + 1,
        ExpandedBuiltIn::Not(e1) => count_insts(e1) + 1,
        ExpandedBuiltIn::Eql(e1, e2) => count_insts(e1) + count_insts(e2) + 1,
        ExpandedBuiltIn::Lt(e1, e2) => count_insts(e1) + count_insts(e2) + 1,
        ExpandedBuiltIn::Gt(e1, e2) => count_insts(e1) + count_insts(e2) + 1,
        ExpandedBuiltIn::Shl(e1, e2) => count_insts(e1) + count_insts(e2) + 1,
        ExpandedBuiltIn::Shr(e1, e2) => count_insts(e1) + count_insts(e2) + 1,
        ExpandedBuiltIn::ItoB(e1) => count_insts(e1) + 1,
        ExpandedBuiltIn::BtoI(e1) => count_insts(e1) + 1,
        ExpandedBuiltIn::TypeQ(e1) => count_insts(e1) + 1,
        ExpandedBuiltIn::Dup(e1) => count_insts(e1) + 1,
        ExpandedBuiltIn::Vref(e1, e2) => count_insts(e1) + count_insts(e2) + 1,
        ExpandedBuiltIn::Vappend(e1, e2) => count_insts(e1) + count_insts(e2) + 1,
        ExpandedBuiltIn::Vempty => 1,
        ExpandedBuiltIn::Vlen(e1) => count_insts(e1) + 1,
        ExpandedBuiltIn::Vslice(e1, e2, e3) => count_insts(e1) + count_insts(e2) + count_insts(e3)
            + 1,
        ExpandedBuiltIn::Vset(e1, e2, e3) => count_insts(e1) + count_insts(e2) + count_insts(e3)
            + 1,
        ExpandedBuiltIn::Vpush(e1, e2) => count_insts(e1) + count_insts(e2) + 1,
        ExpandedBuiltIn::Vcons(e1, e2) => count_insts(e1) + count_insts(e2) + 1,
        ExpandedBuiltIn::Bref(e1, e2) => count_insts(e1) + count_insts(e2) + 1,
        ExpandedBuiltIn::Bappend(e1, e2) => count_insts(e1) + count_insts(e2) + 1,
        ExpandedBuiltIn::Bempty => 1,
        ExpandedBuiltIn::Blen(e1) => count_insts(e1) + 1,
        ExpandedBuiltIn::Bslice(e1, e2, e3) => count_insts(e1) + count_insts(e2) + count_insts(e3)
            + 1,
        ExpandedBuiltIn::Bset(e1, e2, e3) => count_insts(e1) + count_insts(e2) + count_insts(e3)
            + 1,
        ExpandedBuiltIn::Bpush(e1, e2) => count_insts(e1) + count_insts(e2) + 1,
        ExpandedBuiltIn::Bcons(e1, e2) => count_insts(e1) + count_insts(e2) + 1,
        ExpandedBuiltIn::Hash(e1) => count_insts(e1) + 1,
        ExpandedBuiltIn::Jmp(_n) => 1,
        ExpandedBuiltIn::Bez(_n) => 1,
        ExpandedBuiltIn::Bnz(_n) => 1,
        ExpandedBuiltIn::Store(_idx) => 1,
        ExpandedBuiltIn::Load(_idx) => 1,
    }
}

} // verus!
