use vstd::prelude::*;

use crate::parser::{count_insts, num_insts};
use crate::types::{ExpandedBuiltIn, HeapPos, Int256, MelExpr, PushB, PushI, Value};

verus! {

// Opcode table: the authoritative wire contract between the compiler and
// the VM.
pub const OP_ADD: u8 = 0x10;
pub const OP_SUB: u8 = 0x11;
pub const OP_MUL: u8 = 0x12;
pub const OP_DIV: u8 = 0x13;
pub const OP_REM: u8 = 0x14;
pub const OP_AND: u8 = 0x20;
pub const OP_OR: u8 = 0x21;
pub const OP_XOR: u8 = 0x22;
pub const OP_NOT: u8 = 0x23;
pub const OP_EQL: u8 = 0x24;
pub const OP_LT: u8 = 0x25;
pub const OP_GT: u8 = 0x26;
pub const OP_SHL: u8 = 0x27;
pub const OP_SHR: u8 = 0x28;
pub const OP_HASH: u8 = 0x30;
pub const OP_SIGEOK: u8 = 0x32;
pub const OP_LOAD: u8 = 0x42;
pub const OP_STORE: u8 = 0x43;
pub const OP_VREF: u8 = 0x50;
pub const OP_VAPPEND: u8 = 0x51;
pub const OP_VEMPTY: u8 = 0x52;
pub const OP_VLEN: u8 = 0x53;
pub const OP_VSLICE: u8 = 0x54;
pub const OP_VSET: u8 = 0x55;
pub const OP_VPUSH: u8 = 0x56;
pub const OP_VCONS: u8 = 0x57;
pub const OP_BREF: u8 = 0x70;
pub const OP_BAPPEND: u8 = 0x71;
pub const OP_BEMPTY: u8 = 0x72;
pub const OP_BLEN: u8 = 0x73;
pub const OP_BSLICE: u8 = 0x74;
pub const OP_BSET: u8 = 0x75;
pub const OP_BPUSH: u8 = 0x76;
pub const OP_BCONS: u8 = 0x77;
pub const OP_JMP: u8 = 0xa0;
pub const OP_BEZ: u8 = 0xa1;
pub const OP_BNZ: u8 = 0xa2;
pub const OP_LOOP: u8 = 0xb0;
pub const OP_ITOB: u8 = 0xc0;
pub const OP_BTOI: u8 = 0xc1;
pub const OP_TYPEQ: u8 = 0xc2;
pub const OP_DUP: u8 = 0xff;
pub const OP_NOOP: u8 = 0x09;
pub const OP_PUSHI: u8 = 0xf1;
pub const OP_PUSHB: u8 = 0xf0;

/// A growable, append-only binary buffer holding compiled instructions.
#[derive(Clone, Debug, PartialEq, Eq)]
pub struct BinCode(pub Vec<u8>);

/// The 2-byte big-endian encoding of a 16-bit immediate.
pub open spec fn be16(n: u16) -> Seq<u8> {
    seq![((n >> 8u16) & 0xffu16) as u8, (n & 0xffu16) as u8]
}

/// The exact bytes a low-level expression serializes to: a push opcode and
/// the payload for literals, postfix operand ordering for operators, and
/// the structured loop, hash and signature-check forms.
pub open spec fn encode_mel(e: MelExpr) -> Seq<u8>
    decreases e,
{
    match e {
        MelExpr::Value(v) => match v {
            Value::Int(n) => seq![OP_PUSHI] + n.bytes@,
            Value::Bytes(b) => seq![OP_PUSHB, b@.len() as u8] + b@,
        },
        MelExpr::BuiltIn(op) => encode_builtin(*op),
        MelExpr::Sequence(l) => encode_list(l@),
        MelExpr::Hash(n, e1) => encode_mel(*e1) + seq![OP_HASH] + be16(n),
        MelExpr::Sigeok(n, e1, e2, e3) => encode_mel(*e1) + encode_mel(*e2) + encode_mel(*e3)
            + seq![OP_SIGEOK] + be16(n),
        MelExpr::Loop(n, e1) => seq![OP_LOOP] + be16(n) + be16(num_insts(*e1) as u16) + encode_mel(
            *e1,
        ),
        MelExpr::Noop => seq![OP_NOOP],
    }
}

/// Sequences compile each element in source order, concatenating.
pub open spec fn encode_list(l: Seq<MelExpr>) -> Seq<u8>
    decreases l,
{
    if l.len() == 0 {
        Seq::empty()
    } else {
        encode_list(l.drop_last()) + encode_mel(l.last())
    }
}

/// Operands are compiled rightmost first, then the one-byte opcode, so
/// that the stack machine pops them back in left-to-right order. Heap and
/// control-flow operators carry a 2-byte big-endian immediate instead.
pub open spec fn encode_builtin(op: ExpandedBuiltIn<MelExpr>) -> Seq<u8>
    decreases op,
{
    match op {
        ExpandedBuiltIn::Add(e1, e2) => encode_mel(e2) + encode_mel(e1) + seq![OP_ADD],
        ExpandedBuiltIn::Sub(e1, e2) => encode_mel(e2) + encode_mel(e1) + seq![OP_SUB],
        ExpandedBuiltIn::Mul(e1, e2) => encode_mel(e2) + encode_mel(e1) + seq![OP_MUL],
        ExpandedBuiltIn::Div(e1, e2) => encode_mel(e2) + encode_mel(e1) + seq![OP_DIV],
        ExpandedBuiltIn::Rem(e1, e2) => encode_mel(e2) + encode_mel(e1) + seq![OP_REM],
        ExpandedBuiltIn::And(e1, e2) => encode_mel(e2) + encode_mel(e1) + seq![OP_AND],
        ExpandedBuiltIn::Or(e1, e2) => encode_mel(e2) + encode_mel(e1) + seq![OP_OR],
        ExpandedBuiltIn::Xor(e1, e2) => encode_mel(e2) + encode_mel(e1) + seq![OP_XOR],
        ExpandedBuiltIn::Not(e1) => encode_mel(e1) + seq![OP_NOT],
        ExpandedBuiltIn::Eql(e1, e2) => encode_mel(e2) + encode_mel(e1) + seq![OP_EQL],
        ExpandedBuiltIn::Lt(e1, e2) => encode_mel(e2) + encode_mel(e1) + seq![OP_LT],
        ExpandedBuiltIn::Gt(e1, e2) => encode_mel(e2) + encode_mel(e1) + seq![OP_GT],
        ExpandedBuiltIn::Shl(e1, e2) => encode_mel(e2) + encode_mel(e1) + seq![OP_SHL],
        ExpandedBuiltIn::Shr(e1, e2) => encode_mel(e2) + encode_mel(e1) + seq![OP_SHR],
        ExpandedBuiltIn::ItoB(e1) => encode_mel(e1) + seq![OP_ITOB],
        ExpandedBuiltIn::BtoI(e1) => encode_mel(e1) + seq![OP_BTOI],
        ExpandedBuiltIn::TypeQ(e1) => encode_mel(e1) + seq![OP_TYPEQ],
        ExpandedBuiltIn::Dup(e1) => encode_mel(e1) + seq![OP_DUP],
        ExpandedBuiltIn::Vref(e1, e2) => encode_mel(e2) + encode_mel(e1) + seq![OP_VREF],
        ExpandedBuiltIn::Vappend(e1, e2) => encode_mel(e2) + encode_mel(e1) + seq![OP_VAPPEND],
        ExpandedBuiltIn::Vempty => seq![OP_VEMPTY],
        ExpandedBuiltIn::Vlen(e1) => encode_mel(e1) + seq![OP_VLEN],
        ExpandedBuiltIn::Vslice(e1, e2, e3) => encode_mel(e3) + encode_mel(e2) + encode_mel(e1)
            + seq![OP_VSLICE],
        ExpandedBuiltIn::Vset(e1, e2, e3) => encode_mel(e3) + encode_mel(e2) + encode_mel(e1)
            + seq![OP_VSET],
        ExpandedBuiltIn::Vpush(e1, e2) => encode_mel(e2) + encode_mel(e1) + seq![OP_VPUSH],
        ExpandedBuiltIn::Vcons(e1, e2) => encode_mel(e2) + encode_mel(e1) + seq![OP_VCONS],
        ExpandedBuiltIn::Bref(e1, e2) => encode_mel(e2) + encode_mel(e1) + seq![OP_BREF],
        ExpandedBuiltIn::Bappend(e1, e2) => encode_mel(e2) + encode_mel(e1) + seq![OP_BAPPEND],
        ExpandedBuiltIn::Bempty => seq![OP_BEMPTY],
        ExpandedBuiltIn::Blen(e1) => encode_mel(e1) + seq![OP_BLEN],
        ExpandedBuiltIn::Bslice(e1, e2, e3) => encode_mel(e3) + encode_mel(e2) + encode_mel(e1)
            + seq![OP_BSLICE],
        ExpandedBuiltIn::Bset(e1, e2, e3) => encode_mel(e3) + encode_mel(e2) + encode_mel(e1)
            + seq![OP_BSET],
        ExpandedBuiltIn::Bpush(e1, e2) => encode_mel(e2) + encode_mel(e1) + seq![OP_BPUSH],
        ExpandedBuiltIn::Bcons(e1, e2) => encode_mel(e2) + encode_mel(e1) + seq![OP_BCONS],
        ExpandedBuiltIn::Hash(e1) => encode_mel(e1) + seq![OP_HASH],
        ExpandedBuiltIn::Jmp(n) => seq![OP_JMP] + be16(n),
        ExpandedBuiltIn::Bez(n) => seq![OP_BEZ] + be16(n),
        ExpandedBuiltIn::Bnz(n) => seq![OP_BNZ] + be16(n),
        ExpandedBuiltIn::Store(idx) => seq![OP_STORE] + be16(idx),
        ExpandedBuiltIn::Load(idx) => seq![OP_LOAD] + be16(idx),
    }
}

/// Data-model preconditions of the encoding: integers carry exactly 32
/// bytes, byte strings fit the one-byte length, and every loop body's
/// instruction count fits the 2-byte immediate.
pub open spec fn wf_mel(e: MelExpr) -> bool
    decreases e,
{
    match e {
        MelExpr::Value(v) => match v {
            Value::Int(n) => n.wf(),
            Value::Bytes(b) => b@.len() <= 255,
        },
        MelExpr::BuiltIn(op) => wf_builtin(*op),
        MelExpr::Sequence(l) => wf_list(l@),
        MelExpr::Hash(_n, e1) => wf_mel(*e1),
        MelExpr::Sigeok(_n, e1, e2, e3) => wf_mel(*e1) && wf_mel(*e2) && wf_mel(*e3),
        MelExpr::Loop(_n, e1) => wf_mel(*e1) && num_insts(*e1) <= u16::MAX,
        MelExpr::Noop => true,
    }
}

pub open spec fn wf_list(l: Seq<MelExpr>) -> bool
    decreases l,
{
    if l.len() == 0 {
        true
    } else {
        wf_list(l.drop_last()) && wf_mel(l.last())
    }
}

pub open spec fn wf_builtin(op: ExpandedBuiltIn<MelExpr>) -> bool
    decreases op,
{
    match op {
        ExpandedBuiltIn::Add(e1, e2) => wf_mel(e1) && wf_mel(e2),
        ExpandedBuiltIn::Sub(e1, e2) => wf_mel(e1) && wf_mel(e2),
        ExpandedBuiltIn::Mul(e1, e2) => wf_mel(e1) && wf_mel(e2),
        ExpandedBuiltIn::Div(e1, e2) => wf_mel(e1) && wf_mel(e2),
        ExpandedBuiltIn::Rem(e1, e2) => wf_mel(e1) && wf_mel(e2),
        ExpandedBuiltIn::And(e1, e2) => wf_mel(e1) && wf_mel(e2),
        ExpandedBuiltIn::Or(e1, e2) => wf_mel(e1) && wf_mel(e2),
        ExpandedBuiltIn::Xor(e1, e2) => wf_mel(e1) && wf_mel(e2),
        ExpandedBuiltIn::Not(e1) => wf_mel(e1),
        ExpandedBuiltIn::Eql(e1, e2) => wf_mel(e1) && wf_mel(e2),
        ExpandedBuiltIn::Lt(e1, e2) => wf_mel(e1) && wf_mel(e2),
        ExpandedBuiltIn::Gt(e1, e2) => wf_mel(e1) && wf_mel(e2),
        ExpandedBuiltIn::Shl(e1, e2) => wf_mel(e1) && wf_mel(e2),
        ExpandedBuiltIn::Shr(e1, e2) => wf_mel(e1) && wf_mel(e2),
        ExpandedBuiltIn::ItoB(e1) => wf_mel(e1),
        ExpandedBuiltIn::BtoI(e1) => wf_mel(e1),
        ExpandedBuiltIn::TypeQ(e1) => wf_mel(e1),
        ExpandedBuiltIn::Dup(e1) => wf_mel(e1),
        ExpandedBuiltIn::Vref(e1, e2) => wf_mel(e1) && wf_mel(e2),
        ExpandedBuiltIn::Vappend(e1, e2) => wf_mel(e1) && wf_mel(e2),
        ExpandedBuiltIn::Vempty => true,
        ExpandedBuiltIn::Vlen(e1) => wf_mel(e1),
        ExpandedBuiltIn::Vslice(e1, e2, e3) => wf_mel(e1) && wf_mel(e2) && wf_mel(e3),
        ExpandedBuiltIn::Vset(e1, e2, e3) => wf_mel(e1) && wf_mel(e2) && wf_mel(e3),
        ExpandedBuiltIn::Vpush(e1, e2) => wf_mel(e1) && wf_mel(e2),
        ExpandedBuiltIn::Vcons(e1, e2) => wf_mel(e1) && wf_mel(e2),
        ExpandedBuiltIn::Bref(e1, e2) => wf_mel(e1) && wf_mel(e2),
        ExpandedBuiltIn::Bappend(e1, e2) => wf_mel(e1) && wf_mel(e2),
        ExpandedBuiltIn::Bempty => true,
        ExpandedBuiltIn::Blen(e1) => wf_mel(e1),
        ExpandedBuiltIn::Bslice(e1, e2, e3) => wf_mel(e1) && wf_mel(e2) && wf_mel(e3),
        ExpandedBuiltIn::Bset(e1, e2, e3) => wf_mel(e1) && wf_mel(e2) && wf_mel(e3),
        ExpandedBuiltIn::Bpush(e1, e2) => wf_mel(e1) && wf_mel(e2),
        ExpandedBuiltIn::Bcons(e1, e2) => wf_mel(e1) && wf_mel(e2),
        ExpandedBuiltIn::Hash(e1) => wf_mel(e1),
        ExpandedBuiltIn::Jmp(_n) => true,
        ExpandedBuiltIn::Bez(_n) => true,
        ExpandedBuiltIn::Bnz(_n) => true,
        ExpandedBuiltIn::Store(_idx) => true,
        ExpandedBuiltIn::Load(_idx) => true,
    }
}

proof fn lemma_wf_list_index(l: Seq<MelExpr>, i: int)
    requires
        wf_list(l),
        0 <= i < l.len(),
    ensures
        wf_mel(l[i]),
    decreases l.len(),
{
    if i == l.len() - 1 {
    } else {
        lemma_wf_list_index(l.drop_last(), i);
    }
}

/// Produce VM-interpretable binary from a data type, by appending to a
/// binary buffer. Compilation is a pure fold: the returned buffer is the
/// input buffer with exactly `encoding()` appended.
pub trait Compile {
    /// The bytes this node serializes to.
    spec fn encoding(&self) -> Seq<u8>;

    /// The data-model precondition under which the encoding is defined.
    spec fn encodable(&self) -> bool;

    /// Append this node's encoding to `b`.
    fn compile_onto(&self, b: BinCode) -> (r: BinCode)
        requires
            self.encodable(),
        ensures
            r.0@ == b.0@ + self.encoding(),
    ;
}

impl Compile for MelExpr {
    open spec fn encoding(&self) -> Seq<u8> {
        encode_mel(*self)
    }

    open spec fn encodable(&self) -> bool {
        wf_mel(*self)
    }

    fn compile_onto(&self, b: BinCode) -> (r: BinCode) {
        compile_mel(self, b)
    }
}

impl Compile for ExpandedBuiltIn<MelExpr> {
    open spec fn encoding(&self) -> Seq<u8> {
        encode_builtin(*self)
    }

    open spec fn encodable(&self) -> bool {
        wf_builtin(*self)
    }

    fn compile_onto(&self, b: BinCode) -> (r: BinCode) {
        compile_builtin(self, b)
    }
}

impl Compile for HeapPos {
    open spec fn encoding(&self) -> Seq<u8> {
        be16(*self)
    }

    open spec fn encodable(&self) -> bool {
        true
    }

    fn compile_onto(&self, b: BinCode) -> (r: BinCode) {
        let ghost b0 = b.0@;
        let mut b = b;
        b.0.push(((*self >> 8u16) & 0xffu16) as u8);
        b.0.push((*self & 0xffu16) as u8);
        proof {
            assert(b.0@ =~= b0 + be16(*self));
        }
        b
    }
}

/// Append a single opcode byte.
fn push_op(b: BinCode, opcode: u8) -> (r: BinCode)
    ensures
        r.0@ == b.0@ + seq![opcode],
{
    let ghost b0 = b.0@;
    let mut b = b;
    b.0.push(opcode);
    proof {
        assert(b.0@ =~= b0 + seq![opcode]);
    }
    b
}

/// Append every byte of `bytes`.
fn push_bytes(b: BinCode, bytes: &Vec<u8>) -> (r: BinCode)
    ensures
        r.0@ == b.0@ + bytes@,
{
    let ghost b0 = b.0@;
    let mut b = b;
    let mut i: usize = 0;
    while i < bytes.len()
        invariant
            i <= bytes@.len(),
            b.0@ == b0 + bytes@.take(i as int),
        decreases bytes@.len() - i,
    {
        b.0.push(bytes[i]);
        proof {
            assert(b0 + bytes@.take(i as int) + seq![bytes@[i as int]] =~= b0 + bytes@.take(
                i as int + 1,
            ));
        }
        i = i + 1;
    }
    proof {
        assert(bytes@.take(bytes@.len() as int) =~= bytes@);
    }
    b
}

/// Compile the args in reverse syntactic order, then append the opcode
/// (postfix).
pub fn compile_op<T: Compile>(b: BinCode, opcode: u8, args: Vec<&T>) -> (r: BinCode)
    requires
        forall|i: int| 0 <= i < args@.len() ==> (#[trigger] args@[i]).encodable(),
    ensures
        r.0@ == b.0@ + encode_args_rev(args@) + seq![opcode],
{
    let ghost b0 = b.0@;
    let mut b = b;
    let mut i: usize = args.len();
    while i > 0
        invariant
            i <= args@.len(),
            forall|k: int| 0 <= k < args@.len() ==> (#[trigger] args@[k]).encodable(),
            b.0@ == b0 + encode_args_rev(args@.skip(i as int)),
        decreases i,
    {
        i = i - 1;
        b = args[i].compile_onto(b);
        proof {
            assert(args@.skip(i as int).drop_first() =~= args@.skip(i as int + 1));
        }
    }
    proof {
        assert(args@.skip(0) =~= args@);
    }
    push_op(b, opcode)
}

/// The concatenation of the encodings of `args`, rightmost argument first.
pub open spec fn encode_args_rev<T: Compile>(args: Seq<&T>) -> Seq<u8>
    decreases args,
{
    if args.len() == 0 {
        Seq::empty()
    } else {
        encode_args_rev(args.drop_first()) + args.first().encoding()
    }
}

/// Append an opcode and its 2-byte big-endian immediate.
pub fn compile_u16op(b: BinCode, opcode: u8, idx: &HeapPos) -> (r: BinCode)
    ensures
        r.0@ == b.0@ + seq![opcode] + be16(*idx),
{
    let b = push_op(b, opcode);
    idx.compile_onto(b)
}

/// Compile the argument, then append an opcode and its 2-byte immediate.
pub fn compile_u16_expr_op<T: Compile>(b: BinCode, opcode: u8, n: &u16, arg: &T) -> (r: BinCode)
    requires
        arg.encodable(),
    ensures
        r.0@ == b.0@ + arg.encoding() + seq![opcode] + be16(*n),
{
    let b = arg.compile_onto(b);
    let b = push_op(b, opcode);
    n.compile_onto(b)
}

impl PushI {
    /// The opcode of the push-integer instruction.
    pub fn op_code(self) -> (r: u8)
        ensures
            r == OP_PUSHI,
    {
        OP_PUSHI
    }
}

impl PushB {
    /// The opcode of the push-bytes instruction.
    pub fn op_code(self) -> (r: u8)
        ensures
            r == OP_PUSHB,
    {
        OP_PUSHB
    }
}

/// Append the "push integer" opcode and the 32-byte big-endian payload.
fn write_pushi(b: BinCode, n: &Int256) -> (r: BinCode)
    requires
        n.wf(),
    ensures
        r.0@ == b.0@ + seq![OP_PUSHI] + n.bytes@,
{
    let b = push_op(b, PushI.op_code());
    push_bytes(b, &n.bytes)
}

/// Append the "push bytes" opcode, a one-byte length, and the raw bytes.
pub fn write_pushb(b: BinCode, bytes: &Vec<u8>) -> (r: BinCode)
    requires
        bytes@.len() <= 255,
    ensures
        r.0@ == b.0@ + seq![OP_PUSHB, bytes@.len() as u8] + bytes@,
{
    let ghost b0 = b.0@;
    let b = push_op(b, PushB.op_code());
    let b = push_op(b, bytes.len() as u8);
    let r = push_bytes(b, bytes);
    proof {
        assert(r.0@ =~= b0 + seq![OP_PUSHB, bytes@.len() as u8] + bytes@);
    }
    r
}

/// Serialize a low-level expression tree, appending its exact encoding.
pub fn compile_mel(e: &MelExpr, b: BinCode) -> (r: BinCode)
    requires
        wf_mel(*e),
    ensures
        r.0@ == b.0@ + encode_mel(*e),
    decreases *e, 0int,
{
    let ghost b0 = b.0@;
    match e {
        MelExpr::Value(v) => match v {
            Value::Int(n) => {
                let r = write_pushi(b, n);
                proof {
                    assert(r.0@ =~= b0 + encode_mel(*e));
                }
                r
            },
            Value::Bytes(bytes) => {
                let r = write_pushb(b, bytes);
                proof {
                    assert(r.0@ =~= b0 + encode_mel(*e));
                }
                r
            },
        },
        MelExpr::BuiltIn(op) => compile_builtin(&**op, b),
        MelExpr::Sequence(l) => {
            let mut b = b;
            let mut i: usize = 0;
            while i < l.len()
                invariant
                    *e == MelExpr::Sequence(*l),
                    i <= l@.len(),
                    wf_list(l@),
                    b.0@ == b0 + encode_list(l@.take(i as int)),
                decreases l@.len() - i,
            {
                proof {
                    lemma_wf_list_index(l@, i as int);
                    assert(decreases_to!(*e => (*e)->Sequence_0));
                    assert(decreases_to!((*e)->Sequence_0 => l@));
                    assert(decreases_to!(l@ => l@[i as int]));
                    assert(decreases_to!(*e => l@[i as int]));
                }
                b = compile_mel(&l[i], b);
                proof {
                    assert(l@.take(i as int + 1).drop_last() =~= l@.take(i as int));
                    assert(b.0@ =~= b0 + encode_list(l@.take(i as int + 1)));
                }
                i = i + 1;
            }
            proof {
                assert(l@.take(l@.len() as int) =~= l@);
            }
            b
        },
        MelExpr::Hash(n, e1) => {
            let b = compile_mel(&**e1, b);
            let b = push_op(b, OP_HASH);
            let r = n.compile_onto(b);
            proof {
                assert(r.0@ =~= b0 + encode_mel(*e));
            }
            r
        },
        MelExpr::Sigeok(n, e1, e2, e3) => {
            let b = compile_mel(&**e1, b);
            let b = compile_mel(&**e2, b);
            let b = compile_mel(&**e3, b);
            let b = push_op(b, OP_SIGEOK);
            let r = n.compile_onto(b);
            proof {
                assert(r.0@ =~= b0 + encode_mel(*e));
            }
            r
        },
        MelExpr::Loop(n, e1) => {
            let r = write_loop(b, n, &**e1);
            proof {
                assert(r.0@ =~= b0 + encode_mel(*e));
            }
            r
        },
        MelExpr::Noop => push_op(b, OP_NOOP),
    }
}

/// Compile a loop expression onto a bincode: the loop opcode, the 2-byte
/// iteration count, the 2-byte instruction count of the body (computed by
/// statically walking the body, independent of compiling it), then the
/// compiled body.
fn write_loop(b: BinCode, n: &u16, e: &MelExpr) -> (r: BinCode)
    requires
        wf_mel(*e),
        num_insts(*e) <= u16::MAX,
    ensures
        r.0@ == b.0@ + seq![OP_LOOP] + be16(*n) + be16(num_insts(*e) as u16) + encode_mel(*e),
    decreases *e, 1int,
{
    let b = push_op(b, OP_LOOP);
    let op_cnt: u16 = count_insts(e);
    let b = n.compile_onto(b);
    let b = op_cnt.compile_onto(b);
    compile_mel(e, b)
}

/// Serialize one builtin operator application: operands rightmost first,
/// then the opcode.
pub fn compile_builtin(op: &ExpandedBuiltIn<MelExpr>, b: BinCode) -> (r: BinCode)
    requires
        wf_builtin(*op),
    ensures
        r.0@ == b.0@ + encode_builtin(*op),
    decreases *op, 0int,
{
    let ghost b0 = b.0@;
    match op {
        ExpandedBuiltIn::Add(e1, e2) => {
            let r = push_op(compile_mel(e1, compile_mel(e2, b)), OP_ADD);
            proof {
                assert(r.0@ =~= b0 + encode_builtin(*op));
            }
            r
        },
        ExpandedBuiltIn::Sub(e1, e2) => {
            let r = push_op(compile_mel(e1, compile_mel(e2, b)), OP_SUB);
            proof {
                assert(r.0@ =~= b0 + encode_builtin(*op));
            }
            r
        },
        ExpandedBuiltIn::Mul(e1, e2) => {
            let r = push_op(compile_mel(e1, compile_mel(e2, b)), OP_MUL);
            proof {
                assert(r.0@ =~= b0 + encode_builtin(*op));
            }
            r
        },
        ExpandedBuiltIn::Div(e1, e2) => {
            let r = push_op(compile_mel(e1, compile_mel(e2, b)), OP_DIV);
            proof {
                assert(r.0@ =~= b0 + encode_builtin(*op));
            }
            r
        },
        ExpandedBuiltIn::Rem(e1, e2) => {
            let r = push_op(compile_mel(e1, compile_mel(e2, b)), OP_REM);
            proof {
                assert(r.0@ =~= b0 + encode_builtin(*op));
            }
            r
        },
        ExpandedBuiltIn::And(e1, e2) => {
            let r = push_op(compile_mel(e1, compile_mel(e2, b)), OP_AND);
            proof {
                assert(r.0@ =~= b0 + encode_builtin(*op));
            }
            r
        },
        ExpandedBuiltIn::Or(e1, e2) => {
            let r = push_op(compile_mel(e1, compile_mel(e2, b)), OP_OR);
            proof {
                assert(r.0@ =~= b0 + encode_builtin(*op));
            }
            r
        },
        ExpandedBuiltIn::Xor(e1, e2) => {
            let r = push_op(compile_mel(e1, compile_mel(e2, b)), OP_XOR);
            proof {
                assert(r.0@ =~= b0 + encode_builtin(*op));
            }
            r
        },
        ExpandedBuiltIn::Not(e1) => {
            let r = push_op(compile_mel(e1, b), OP_NOT);
            proof {
                assert(r.0@ =~= b0 + encode_builtin(*op));
            }
            r
        },
        ExpandedBuiltIn::Eql(e1, e2) => {
            let r = push_op(compile_mel(e1, compile_mel(e2, b)), OP_EQL);
            proof {
                assert(r.0@ =~= b0 + encode_builtin(*op));
            }
            r
        },
        ExpandedBuiltIn::Lt(e1, e2) => {
            let r = push_op(compile_mel(e1, compile_mel(e2, b)), OP_LT);
            proof {
                assert(r.0@ =~= b0 + encode_builtin(*op));
            }
            r
        },
        ExpandedBuiltIn::Gt(e1, e2) => {
            let r = push_op(compile_mel(e1, compile_mel(e2, b)), OP_GT);
            proof {
                assert(r.0@ =~= b0 + encode_builtin(*op));
            }
            r
        },
        ExpandedBuiltIn::Shl(e1, e2) => {
            let r = push_op(compile_mel(e1, compile_mel(e2, b)), OP_SHL);
            proof {
                assert(r.0@ =~= b0 + encode_builtin(*op));
            }
            r
        },
        ExpandedBuiltIn::Shr(e1, e2) => {
            let r = push_op(compile_mel(e1, compile_mel(e2, b)), OP_SHR);
            proof {
                assert(r.0@ =~= b0 + encode_builtin(*op));
            }
            r
        },
        ExpandedBuiltIn::ItoB(e1) => {
            let r = push_op(compile_mel(e1, b), OP_ITOB);
            proof {
                assert(r.0@ =~= b0 + encode_builtin(*op));
            }
            r
        },
        ExpandedBuiltIn::BtoI(e1) => {
            let r = push_op(compile_mel(e1, b), OP_BTOI);
            proof {
                assert(r.0@ =~= b0 + encode_builtin(*op));
            }
            r
        },
        ExpandedBuiltIn::TypeQ(e1) => {
            let r = push_op(compile_mel(e1, b), OP_TYPEQ);
            proof {
                assert(r.0@ =~= b0 + encode_builtin(*op));
            }
            r
        },
        ExpandedBuiltIn::Dup(e1) => {
            let r = push_op(compile_mel(e1, b), OP_DUP);
            proof {
                assert(r.0@ =~= b0 + encode_builtin(*op));
            }
            r
        },
        ExpandedBuiltIn::Vref(e1, e2) => {
            let r = push_op(compile_mel(e1, compile_mel(e2, b)), OP_VREF);
            proof {
                assert(r.0@ =~= b0 + encode_builtin(*op));
            }
            r
        },
        ExpandedBuiltIn::Vappend(e1, e2) => {
            let r = push_op(compile_mel(e1, compile_mel(e2, b)), OP_VAPPEND);
            proof {
                assert(r.0@ =~= b0 + encode_builtin(*op));
            }
            r
        },
        ExpandedBuiltIn::Vempty => {
            let r = push_op(b, OP_VEMPTY);
            proof {
                assert(r.0@ =~= b0 + encode_builtin(*op));
            }
            r
        },
        ExpandedBuiltIn::Vlen(e1) => {
            let r = push_op(compile_mel(e1, b), OP_VLEN);
            proof {
                assert(r.0@ =~= b0 + encode_builtin(*op));
            }
            r
        },
        ExpandedBuiltIn::Vslice(e1, e2, e3) => {
            let r = push_op(compile_mel(e1, compile_mel(e2, compile_mel(e3, b))), OP_VSLICE);
            proof {
                assert(r.0@ =~= b0 + encode_builtin(*op));
            }
            r
        },
        ExpandedBuiltIn::Vset(e1, e2, e3) => {
            let r = push_op(compile_mel(e1, compile_mel(e2, compile_mel(e3, b))), OP_VSET);
            proof {
                assert(r.0@ =~= b0 + encode_builtin(*op));
            }
            r
        },
        ExpandedBuiltIn::Vpush(e1, e2) => {
            let r = push_op(compile_mel(e1, compile_mel(e2, b)), OP_VPUSH);
            proof {
                assert(r.0@ =~= b0 + encode_builtin(*op));
            }
            r
        },
        ExpandedBuiltIn::Vcons(e1, e2) => {
            let r = push_op(compile_mel(e1, compile_mel(e2, b)), OP_VCONS);
            proof {
                assert(r.0@ =~= b0 + encode_builtin(*op));
            }
            r
        },
        ExpandedBuiltIn::Bref(e1, e2) => {
            let r = push_op(compile_mel(e1, compile_mel(e2, b)), OP_BREF);
            proof {
                assert(r.0@ =~= b0 + encode_builtin(*op));
            }
            r
        },
        ExpandedBuiltIn::Bappend(e1, e2) => {
            let r = push_op(compile_mel(e1, compile_mel(e2, b)), OP_BAPPEND);
            proof {
                assert(r.0@ =~= b0 + encode_builtin(*op));
            }
            r
        },
        ExpandedBuiltIn::Bempty => {
            let r = push_op(b, OP_BEMPTY);
            proof {
                assert(r.0@ =~= b0 + encode_builtin(*op));
            }
            r
        },
        ExpandedBuiltIn::Blen(e1) => {
            let r = push_op(compile_mel(e1, b), OP_BLEN);
            proof {
                assert(r.0@ =~= b0 + encode_builtin(*op));
            }
            r
        },
        ExpandedBuiltIn::Bslice(e1, e2, e3) => {
            let r = push_op(compile_mel(e1, compile_mel(e2, compile_mel(e3, b))), OP_BSLICE);
            proof {
                assert(r.0@ =~= b0 + encode_builtin(*op));
            }
            r
        },
        ExpandedBuiltIn::Bset(e1, e2, e3) => {
            let r = push_op(compile_mel(e1, compile_mel(e2, compile_mel(e3, b))), OP_BSET);
            proof {
                assert(r.0@ =~= b0 + encode_builtin(*op));
            }
            r
        },
        ExpandedBuiltIn::Bpush(e1, e2) => {
            let r = push_op(compile_mel(e1, compile_mel(e2, b)), OP_BPUSH);
            proof {
                assert(r.0@ =~= b0 + encode_builtin(*op));
            }
            r
        },
        ExpandedBuiltIn::Bcons(e1, e2) => {
            let r = push_op(compile_mel(e1, compile_mel(e2, b)), OP_BCONS);
            proof {
                assert(r.0@ =~= b0 + encode_builtin(*op));
            }
            r
        },
        ExpandedBuiltIn::Hash(e1) => {
            let r = push_op(compile_mel(e1, b), OP_HASH);
            proof {
                assert(r.0@ =~= b0 + encode_builtin(*op));
            }
            r
        },
        ExpandedBuiltIn::Jmp(n) => {
            let r = compile_u16op(b, OP_JMP, n);
            proof {
                assert(r.0@ =~= b0 + encode_builtin(*op));
            }
            r
        },
        ExpandedBuiltIn::Bez(n) => {
            let r = compile_u16op(b, OP_BEZ, n);
            proof {
                assert(r.0@ =~= b0 + encode_builtin(*op));
            }
            r
        },
        ExpandedBuiltIn::Bnz(n) => {
            let r = compile_u16op(b, OP_BNZ, n);
            proof {
                assert(r.0@ =~= b0 + encode_builtin(*op));
            }
            r
        },
        ExpandedBuiltIn::Store(idx) => {
            let r = compile_u16op(b, OP_STORE, idx);
            proof {
                assert(r.0@ =~= b0 + encode_builtin(*op));
            }
            r
        },
        ExpandedBuiltIn::Load(idx) => {
            let r = compile_u16op(b, OP_LOAD, idx);
            proof {
                assert(r.0@ =~= b0 + encode_builtin(*op));
            }
            r
        },
    }
}

impl BinCode {
    /// The lower-case hexadecimal digits of the buffer, two ASCII bytes
    /// per buffer byte, ready for display.
    pub fn to_hex(&self) -> (r: Vec<u8>)
        ensures
            r@.len() == 2 * self.0@.len(),
            forall|i: int|
                0 <= i < self.0@.len() ==> r@[2 * i] == hex_digit(self.0@[i] / 16) && r@[2 * i + 1]
                    == hex_digit(self.0@[i] % 16),
    {
        let mut r: Vec<u8> = Vec::new();
        let mut i: usize = 0;
        while i < self.0.len()
            invariant
                i <= self.0@.len(),
                r@.len() == 2 * i,
                forall|k: int|
                    0 <= k < i ==> r@[2 * k] == hex_digit(self.0@[k] / 16) && r@[2 * k + 1]
                        == hex_digit(self.0@[k] % 16),
            decreases self.0@.len() - i,
        {
            let byte = self.0[i];
            r.push(hex_digit_exec(byte / 16));
            r.push(hex_digit_exec(byte % 16));
            i = i + 1;
        }
        r
    }
}

/// The ASCII code of the lower-case hexadecimal digit for `n` (0..=15).
pub open spec fn hex_digit(n: u8) -> u8 {
    if n < 10 {
        (0x30 + n) as u8
    } else {
        (0x61 + (n - 10)) as u8
    }
}

fn hex_digit_exec(n: u8) -> (r: u8)
    requires
        n < 16,
    ensures
        r == hex_digit(n),
{
    if n < 10 {
        0x30 + n
    } else {
        0x61 + (n - 10)
    }
}


/// An integer literal compiles to exactly the one-byte push-integer
/// opcode followed by the value's fixed 32-byte big-endian payload.
pub proof fn lemma_push_int_encoding(n: Int256)
    ensures
        encode_mel(MelExpr::Value(Value::Int(n))) == seq![OP_PUSHI] + n.bytes@,
{
}

/// Operand order is load-bearing for non-commutative operators: a
/// subtraction compiles its right operand first, then its left operand,
/// then the opcode, so that the interpreter — popping the last-pushed
/// value first as the left operand — computes the difference and not its
/// negation.
pub proof fn lemma_subtraction_operand_order(e1: MelExpr, e2: MelExpr)
    ensures
        encode_builtin(ExpandedBuiltIn::Sub(e1, e2)) == encode_mel(e2) + encode_mel(e1)
            + seq![OP_SUB],
{
}

/// A bounded loop compiles to its opcode, the 2-byte iteration count,
/// the 2-byte instruction count of the body, and then the body bytes,
/// with nothing interspersed.
pub proof fn lemma_loop_encoding(n: u16, body: MelExpr)
    ensures
        encode_mel(MelExpr::Loop(n, Box::new(body))) == seq![OP_LOOP] + be16(n) + be16(
            num_insts(body) as u16,
        ) + encode_mel(body),
{
}

/// Compilation is a pure fold: the bytes appended for an expression are
/// a function of the expression alone, whatever buffer they are appended
/// to — so compiling one expression onto two independently built equal
/// buffers, or onto two empty ones, yields byte-identical results.
pub proof fn lemma_compile_deterministic(e: MelExpr, b: Seq<u8>)
    ensures
        (b + encode_mel(e)).skip(b.len() as int) == encode_mel(e),
{
    assert((b + encode_mel(e)).skip(b.len() as int) =~= encode_mel(e));
}


} // verus!
