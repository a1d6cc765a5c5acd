use vstd::prelude::*;

verus! {

/// Marker for the "push integer" instruction. Push is inherent in the
/// language and so not a variant of [`BuiltIn`].
pub struct PushI;

/// Marker for the "push byte string" instruction.
pub struct PushB;

/// An index for a location on the VM heap.
pub type HeapPos = u16;

/// Symbolic name for an expression.
pub type Symbol = String;

/// Internal data type for tracking variable ids.
pub type VarId = i32;

/// A 256-bit unsigned integer, kept as its 32-byte big-endian encoding,
/// which is exactly what the VM's "push integer" instruction carries.
#[derive(Clone, Debug, PartialEq, Eq)]
pub struct Int256 {
    pub bytes: Vec<u8>,
}

impl Int256 {
    /// A value is well formed when it holds exactly the 32 bytes of the
    /// big-endian encoding.
    pub open spec fn wf(&self) -> bool {
        self.bytes@.len() == 32
    }

    /// The big-endian byte at position `i` (0 is the most significant of
    /// the 32 bytes) of a value that fits in 64 bits.
    pub open spec fn spec_be_byte_of_u64(n: u64, i: int) -> u8 {
        if i < 24 {
            0u8
        } else {
            ((n >> ((31 - i) * 8)) & 0xff) as u8
        }
    }

    /// Build the 256-bit value of a 64-bit integer.
    pub fn from_u64(n: u64) -> (r: Int256)
        ensures
            r.wf(),
            r.bytes@ == Seq::new(32, |i: int| Int256::spec_be_byte_of_u64(n, i)),
    {
        let mut bytes: Vec<u8> = Vec::new();
        let mut i: usize = 0;
        while i < 24
            invariant
                i <= 24,
                bytes@.len() == i,
                forall|j: int| 0 <= j < i ==> bytes@[j] == 0u8,
            decreases 24 - i,
        {
            bytes.push(0u8);
            i = i + 1;
        }
        let mut k: usize = 0;
        while k < 8
            invariant
                k <= 8,
                bytes@.len() == 24 + k,
                forall|j: int| 0 <= j < 24 ==> bytes@[j] == 0u8,
                forall|j: int|
                    24 <= j < 24 + k ==> bytes@[j] == (((n >> ((31 - j) * 8)) & 0xff) as u8),
            decreases 8 - k,
        {
            let shift: u64 = ((7 - k) * 8) as u64;
            bytes.push(((n >> shift) & 0xff) as u8);
            k = k + 1;
        }
        let r = Int256 { bytes };
        proof {
            assert(r.bytes@ =~= Seq::new(32, |i: int| Int256::spec_be_byte_of_u64(n, i)));
        }
        r
    }

    /// Build a value directly from its 32-byte big-endian encoding.
    pub fn from_be_bytes(bytes: Vec<u8>) -> (r: Int256)
        requires
            bytes@.len() == 32,
        ensures
            r.wf(),
            r.bytes@ == bytes@,
    {
        Int256 { bytes }
    }
}

/// Fundamental data types of the evaluator. These are used by the compiler,
/// not by the VM.
#[derive(Clone, Debug, PartialEq, Eq)]
pub enum Value {
    Int(Int256),
    Bytes(Vec<u8>),
}

/// The mathematical content of a [`Value`]: its payload bytes, freed from
/// the executable containers.
pub ghost enum ValueModel {
    Int(Seq<u8>),
    Bytes(Seq<u8>),
}

/// What a [`Value`] stands for; two values with one model compile alike.
pub open spec fn value_model(v: Value) -> ValueModel {
    match v {
        Value::Int(n) => ValueModel::Int(n.bytes@),
        Value::Bytes(b) => ValueModel::Bytes(b@),
    }
}

/// The built-in operator set, generic over the operand representation so
/// that one list serves both the hygienic and the low-level phase.
/// Heap access and control flow carry an encoded 16-bit index instead of an
/// operand expression.
#[derive(Debug, PartialEq, Eq)]
pub enum ExpandedBuiltIn<E> {
    // Arithmetic
    Add(E, E),
    Sub(E, E),
    Mul(E, E),
    Div(E, E),
    Rem(E, E),
    // Logic
    And(E, E),
    Or(E, E),
    Xor(E, E),
    Not(E),
    Eql(E, E),
    Lt(E, E),
    Gt(E, E),
    Shl(E, E),
    Shr(E, E),
    // Type conversion
    ItoB(E),
    BtoI(E),
    TypeQ(E),
    // Stack
    Dup(E),
    // Vectors
    Vref(E, E),
    Vappend(E, E),
    Vempty,
    Vlen(E),
    Vslice(E, E, E),
    Vset(E, E, E),
    Vpush(E, E),
    Vcons(E, E),
    // Byte strings
    Bref(E, E),
    Bappend(E, E),
    Bempty,
    Blen(E),
    Bslice(E, E, E),
    Bset(E, E, E),
    Bpush(E, E),
    Bcons(E, E),
    // Hashing
    Hash(E),
    // Control flow
    Jmp(HeapPos),
    Bez(HeapPos),
    Bnz(HeapPos),
    // Heap access
    Store(HeapPos),
    Load(HeapPos),
}

/// Surface-level builtin operations, applied to named sub-expressions.
#[derive(Debug, PartialEq, Eq)]
pub enum BuiltIn {
    Add(Expr, Expr),
    Sub(Expr, Expr),
    Mul(Expr, Expr),
    Div(Expr, Expr),
    Rem(Expr, Expr),
    And(Expr, Expr),
    Or(Expr, Expr),
    Xor(Expr, Expr),
    Not(Expr),
    Vpush(Expr, Expr),
    Vempty,
    Vref(Expr, Expr),
    Vlen(Expr),
    Vappend(Expr, Expr),
    Vslice(Expr, Expr, Expr),
    Hash(Expr),
    Load(Symbol),
    Store(Symbol),
}

/// Abstract syntax tree of the surface language. It is expanded into an
/// [`UnrolledExpr`]; an external pass then resolves variable ids to heap
/// positions, yielding the [`MelExpr`] the compiler serializes.
#[derive(Debug, PartialEq, Eq)]
pub enum Expr {
    /// Fundamental data type.
    Value(Value),
    /// Builtin operations.
    BuiltIn(Box<BuiltIn>),
    /// Application of a user-defined function to some arguments.
    App(Symbol, Vec<Expr>),
    /// Assign a value stored on the heap to a symbol.
    SetVar(Symbol, Box<Expr>),
    /// A variable is a pointer to a location on the heap.
    Var(Symbol),
    /// Bind symbols to values within the scope of the body expressions.
    Let(Vec<(Symbol, Expr)>, Vec<Expr>),
}

/// An expression where all applications are on [`BuiltIn`] operators and
/// every variable is mangled into a unique [`VarId`]. It is generated by
/// expanding all defined functions inside an [`Expr`].
#[derive(Debug, PartialEq, Eq)]
pub enum UnrolledExpr {
    /// Fundamental data type.
    Value(Value),
    /// Builtin operations.
    BuiltIn(Box<ExpandedBuiltIn<UnrolledExpr>>),
    /// Assign a value stored on the heap to a mangled variable.
    SetVar(VarId, Box<UnrolledExpr>),
    /// A variable is a pointer to a location on the heap. The [`VarId`] is
    /// a unique mangled variable id.
    Var(VarId),
    /// Bind mangled ids to values within the scope of the body expressions.
    Let(Vec<(VarId, UnrolledExpr)>, Vec<UnrolledExpr>),
}

/// The low-level representation of a program that is directly compilable
/// into a binary for the VM.
#[derive(Debug, PartialEq, Eq)]
pub enum MelExpr {
    /// Fundamental data type.
    Value(Value),
    /// Builtin operations.
    BuiltIn(Box<ExpandedBuiltIn<MelExpr>>),
    /// A sequence of instructions.
    Sequence(Vec<MelExpr>),
    /// Hash the result of the sub-expression; the 16-bit immediate is part
    /// of the instruction encoding.
    Hash(HeapPos, Box<MelExpr>),
    /// Signature check over three sub-expressions and a 16-bit selector.
    Sigeok(HeapPos, Box<MelExpr>, Box<MelExpr>, Box<MelExpr>),
    /// A bounded loop: iteration count and body.
    Loop(HeapPos, Box<MelExpr>),
    /// A single no-operation instruction.
    Noop,
}

/// A list of a function's parameters and its body.
pub type FnInfo = (Vec<Symbol>, Expr);

/// A function definition: its name, paired with parameters and body.
pub type Defn = (Symbol, FnInfo);

/// A terminal expansion failure. Every variant aborts the enclosing
/// compilation; nothing is retried or recovered.
#[derive(Clone, Debug, PartialEq, Eq)]
pub enum ParseErr {
    /// A `Var` or `Set` reference with no binding in the active environment.
    UndefinedVariable(Symbol),
    /// An application naming a function absent from the function table.
    UndefinedFunction(Symbol),
    /// Argument count differs from the callee's parameter count: the
    /// declared count first, the supplied count second.
    ArityMismatch(usize, usize),
    /// A surface builtin operator with no expansion rule.
    UnsupportedBuiltIn,
    /// Function inlining nested deeper than the definition table allows;
    /// only a cyclic (self- or mutually-recursive) definition reaches this.
    RecursionLimit,
    /// The variable id counter is exhausted; mangling refuses to reuse ids.
    IdsExhausted,
}

} // verus!
