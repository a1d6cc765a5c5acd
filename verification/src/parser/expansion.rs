use vstd::prelude::*;

use crate::types::{
    value_model, BuiltIn, Defn, Expr, ExpandedBuiltIn, FnInfo, Int256, ParseErr, Symbol,
    UnrolledExpr, Value, VarId,
};

verus! {

/// The mangler's seed: the first id it hands out is one past this value.
/// Heap locations 0 and 1 are reserved by the VM for implicit context, so
/// no binding may ever receive them.
pub const MANGLER_SEED: VarId = 2;

/// The binding environment: innermost bindings last, so lookup scans from
/// the end and an inner binding shadows an outer one of the same name.
pub type Bindings = Vec<(Symbol, VarId)>;

/// The mangled id a name resolves to, innermost binding first.
pub open spec fn lookup(bs: Seq<(Symbol, VarId)>, x: Seq<char>) -> Option<VarId>
    decreases bs,
{
    if bs.len() == 0 {
        None
    } else if bs.last().0@ == x {
        Some(bs.last().1)
    } else {
        lookup(bs.drop_last(), x)
    }
}

/// The definition a function name resolves to; a later definition of the
/// same name wins, mirroring last-write-wins table construction.
pub open spec fn lookup_fn(fns: Seq<Defn>, f: Seq<char>) -> Option<FnInfo>
    decreases fns,
{
    if fns.len() == 0 {
        None
    } else if fns.last().0@ == f {
        Some(fns.last().1)
    } else {
        lookup_fn(fns.drop_last(), f)
    }
}

/// The bindings a `let` adds to the environment: the bound names paired
/// with the consecutive fresh ids `base + 1 ..= base + n`.
pub open spec fn let_bindings(binds: Seq<(Symbol, Expr)>, base: int) -> Seq<(Symbol, VarId)> {
    Seq::new(binds.len(), |i: int| (binds[i].0, (base + 1 + i) as VarId))
}

/// The bindings a function application adds for its formal parameters:
/// parameter names paired with the consecutive fresh ids after `base`.
pub open spec fn param_bindings(params: Seq<Symbol>, base: int) -> Seq<(Symbol, VarId)> {
    Seq::new(params.len(), |i: int| (params[i], (base + 1 + i) as VarId))
}

/// How many fresh variable ids expanding `e` allocates when it succeeds:
/// one per `let` binding and one per formal parameter of every inlined
/// application. Expansion is deterministic, so the id counter after a
/// successful expansion is always its value before plus this count.
pub open spec fn ids_of(fns: Seq<Defn>, fuel: nat, e: Expr) -> nat
    decreases fuel, e,
{
    match e {
        Expr::Value(_v) => 0,
        Expr::Var(_x) => 0,
        Expr::SetVar(_x, e1) => ids_of(fns, fuel, *e1),
        Expr::BuiltIn(b) => ids_of_builtin(fns, fuel, *b),
        Expr::App(f, es) => match lookup_fn(fns, f@) {
            Some(fi) => if fuel == 0 {
                0
            } else {
                ids_of_list(fns, fuel, es@) + es@.len() + ids_of(fns, (fuel - 1) as nat, fi.1)
            },
            None => 0,
        },
        Expr::Let(binds, bodies) => binds@.len() + ids_of_pairs(fns, fuel, binds@) + ids_of_list(
            fns,
            fuel,
            bodies@,
        ),
    }
}

pub open spec fn ids_of_list(fns: Seq<Defn>, fuel: nat, es: Seq<Expr>) -> nat
    decreases fuel, es,
{
    if es.len() == 0 {
        0
    } else {
        ids_of_list(fns, fuel, es.drop_last()) + ids_of(fns, fuel, es.last())
    }
}

pub open spec fn ids_of_pairs(fns: Seq<Defn>, fuel: nat, binds: Seq<(Symbol, Expr)>) -> nat
    decreases fuel, binds,
{
    if binds.len() == 0 {
        0
    } else {
        ids_of_pairs(fns, fuel, binds.drop_last()) + ids_of(fns, fuel, binds.last().1)
    }
}

pub open spec fn ids_of_builtin(fns: Seq<Defn>, fuel: nat, b: BuiltIn) -> nat
    decreases fuel, b,
{
    match b {
        BuiltIn::Add(e1, e2) => ids_of(fns, fuel, e1) + ids_of(fns, fuel, e2),
        BuiltIn::Sub(e1, e2) => ids_of(fns, fuel, e1) + ids_of(fns, fuel, e2),
        BuiltIn::Mul(e1, e2) => ids_of(fns, fuel, e1) + ids_of(fns, fuel, e2),
        BuiltIn::Div(e1, e2) => ids_of(fns, fuel, e1) + ids_of(fns, fuel, e2),
        BuiltIn::Rem(e1, e2) => ids_of(fns, fuel, e1) + ids_of(fns, fuel, e2),
        BuiltIn::And(e1, e2) => ids_of(fns, fuel, e1) + ids_of(fns, fuel, e2),
        BuiltIn::Or(e1, e2) => ids_of(fns, fuel, e1) + ids_of(fns, fuel, e2),
        BuiltIn::Xor(e1, e2) => ids_of(fns, fuel, e1) + ids_of(fns, fuel, e2),
        BuiltIn::Vpush(e1, e2) => ids_of(fns, fuel, e1) + ids_of(fns, fuel, e2),
        BuiltIn::Vref(e1, e2) => ids_of(fns, fuel, e1) + ids_of(fns, fuel, e2),
        BuiltIn::Vappend(e1, e2) => ids_of(fns, fuel, e1) + ids_of(fns, fuel, e2),
        BuiltIn::Not(e1) => ids_of(fns, fuel, e1),
        BuiltIn::Vlen(e1) => ids_of(fns, fuel, e1),
        BuiltIn::Hash(e1) => ids_of(fns, fuel, e1),
        BuiltIn::Vempty => 0,
        BuiltIn::Vslice(_e1, _e2, _e3) => 0,
        BuiltIn::Load(_s) => 0,
        BuiltIn::Store(_s) => 0,
    }
}

/// Expansion of `e` succeeds: every referenced variable is bound, every
/// applied function is defined with matching arity, every operator has an
/// expansion rule, the inlining budget admits the call nesting, and the
/// id counter never leaves the id space.
pub open spec fn can_ok(fns: Seq<Defn>, bs: Seq<(Symbol, VarId)>, ctr: int, fuel: nat, e: Expr) -> bool
    decreases fuel, e,
{
    match e {
        Expr::Value(_v) => true,
        Expr::Var(x) => lookup(bs, x@) is Some,
        Expr::SetVar(x, e1) => lookup(bs, x@) is Some && can_ok(fns, bs, ctr, fuel, *e1),
        Expr::BuiltIn(b) => can_ok_builtin(fns, bs, ctr, fuel, *b),
        Expr::App(f, es) => match lookup_fn(fns, f@) {
            Some(fi) => fi.0@.len() == es@.len() && can_ok_list(fns, bs, ctr, fuel, es@) && ctr
                + ids_of_list(fns, fuel, es@) + es@.len() <= i32::MAX && (if fuel == 0 {
                false
            } else {
                can_ok(
                    fns,
                    bs + param_bindings(fi.0@, ctr + ids_of_list(fns, fuel, es@)),
                    ctr + ids_of_list(fns, fuel, es@) + es@.len(),
                    (fuel - 1) as nat,
                    fi.1,
                )
            }),
            None => false,
        },
        Expr::Let(binds, bodies) => ctr + binds@.len() <= i32::MAX && can_ok_pairs(
            fns,
            bs,
            ctr + binds@.len(),
            fuel,
            binds@,
        ) && can_ok_list(
            fns,
            bs + let_bindings(binds@, ctr),
            ctr + binds@.len() + ids_of_pairs(fns, fuel, binds@),
            fuel,
            bodies@,
        ),
    }
}

pub open spec fn can_ok_list(
    fns: Seq<Defn>,
    bs: Seq<(Symbol, VarId)>,
    ctr: int,
    fuel: nat,
    es: Seq<Expr>,
) -> bool
    decreases fuel, es,
{
    if es.len() == 0 {
        true
    } else {
        can_ok_list(fns, bs, ctr, fuel, es.drop_last()) && can_ok(
            fns,
            bs,
            ctr + ids_of_list(fns, fuel, es.drop_last()),
            fuel,
            es.last(),
        )
    }
}

pub open spec fn can_ok_pairs(
    fns: Seq<Defn>,
    bs: Seq<(Symbol, VarId)>,
    ctr: int,
    fuel: nat,
    binds: Seq<(Symbol, Expr)>,
) -> bool
    decreases fuel, binds,
{
    if binds.len() == 0 {
        true
    } else {
        can_ok_pairs(fns, bs, ctr, fuel, binds.drop_last()) && can_ok(
            fns,
            bs,
            ctr + ids_of_pairs(fns, fuel, binds.drop_last()),
            fuel,
            binds.last().1,
        )
    }
}

pub open spec fn can_ok_builtin(
    fns: Seq<Defn>,
    bs: Seq<(Symbol, VarId)>,
    ctr: int,
    fuel: nat,
    b: BuiltIn,
) -> bool
    decreases fuel, b,
{
    match b {
        BuiltIn::Add(e1, e2) => can_ok(fns, bs, ctr, fuel, e1) && can_ok(
            fns,
            bs,
            ctr + ids_of(fns, fuel, e1),
            fuel,
            e2,
        ),
        BuiltIn::Sub(e1, e2) => can_ok(fns, bs, ctr, fuel, e1) && can_ok(
            fns,
            bs,
            ctr + ids_of(fns, fuel, e1),
            fuel,
            e2,
        ),
        BuiltIn::Mul(e1, e2) => can_ok(fns, bs, ctr, fuel, e1) && can_ok(
            fns,
            bs,
            ctr + ids_of(fns, fuel, e1),
            fuel,
            e2,
        ),
        BuiltIn::Div(e1, e2) => can_ok(fns, bs, ctr, fuel, e1) && can_ok(
            fns,
            bs,
            ctr + ids_of(fns, fuel, e1),
            fuel,
            e2,
        ),
        BuiltIn::Rem(e1, e2) => can_ok(fns, bs, ctr, fuel, e1) && can_ok(
            fns,
            bs,
            ctr + ids_of(fns, fuel, e1),
            fuel,
            e2,
        ),
        BuiltIn::And(e1, e2) => can_ok(fns, bs, ctr, fuel, e1) && can_ok(
            fns,
            bs,
            ctr + ids_of(fns, fuel, e1),
            fuel,
            e2,
        ),
        BuiltIn::Or(e1, e2) => can_ok(fns, bs, ctr, fuel, e1) && can_ok(
            fns,
            bs,
            ctr + ids_of(fns, fuel, e1),
            fuel,
            e2,
        ),
        BuiltIn::Xor(e1, e2) => can_ok(fns, bs, ctr, fuel, e1) && can_ok(
            fns,
            bs,
            ctr + ids_of(fns, fuel, e1),
            fuel,
            e2,
        ),
        BuiltIn::Vpush(e1, e2) => can_ok(fns, bs, ctr, fuel, e1) && can_ok(
            fns,
            bs,
            ctr + ids_of(fns, fuel, e1),
            fuel,
            e2,
        ),
        BuiltIn::Vref(e1, e2) => can_ok(fns, bs, ctr, fuel, e1) && can_ok(
            fns,
            bs,
            ctr + ids_of(fns, fuel, e1),
            fuel,
            e2,
        ),
        BuiltIn::Vappend(e1, e2) => can_ok(fns, bs, ctr, fuel, e1) && can_ok(
            fns,
            bs,
            ctr + ids_of(fns, fuel, e1),
            fuel,
            e2,
        ),
        BuiltIn::Not(e1) => can_ok(fns, bs, ctr, fuel, e1),
        BuiltIn::Vlen(e1) => can_ok(fns, bs, ctr, fuel, e1),
        BuiltIn::Hash(e1) => can_ok(fns, bs, ctr, fuel, e1),
        BuiltIn::Vempty => true,
        BuiltIn::Vslice(_e1, _e2, _e3) => false,
        BuiltIn::Load(_s) => false,
        BuiltIn::Store(_s) => false,
    }
}

/// Success of the expansion engine: `u` is the expansion of `e` under the
/// function table `fns`, the binding environment `bs`, the id counter
/// `ctr` and the inlining budget `fuel`. The counter each sub-expansion
/// starts from is computed with [`ids_of`], which makes this relation a
/// full functional description of the result.
pub open spec fn rel_ok(
    fns: Seq<Defn>,
    bs: Seq<(Symbol, VarId)>,
    ctr: int,
    fuel: nat,
    e: Expr,
    u: UnrolledExpr,
) -> bool
    decreases fuel, e,
{
    match e {
        Expr::Value(v) => match u {
            UnrolledExpr::Value(v2) => value_model(v2) == value_model(v),
            _ => false,
        },
        Expr::Var(x) => match lookup(bs, x@) {
            Some(v) => u == UnrolledExpr::Var(v),
            None => false,
        },
        Expr::SetVar(x, e1) => match lookup(bs, x@) {
            Some(v) => match u {
                UnrolledExpr::SetVar(w, u1) => w == v && rel_ok(fns, bs, ctr, fuel, *e1, *u1),
                _ => false,
            },
            None => false,
        },
        Expr::BuiltIn(b) => rel_ok_builtin(fns, bs, ctr, fuel, *b, u),
        Expr::App(f, es) => match lookup_fn(fns, f@) {
            Some(fi) => fi.0@.len() == es@.len() && (if fuel == 0 {
                false
            } else {
                match u {
                    UnrolledExpr::Let(bnds, bodies1) => bodies1@.len() == 1 && ctr + ids_of_list(
                        fns,
                        fuel,
                        es@,
                    ) + es@.len() <= i32::MAX && rel_ok_app_binds(
                        fns,
                        bs,
                        ctr,
                        fuel,
                        es@,
                        bnds@,
                        ctr + ids_of_list(fns, fuel, es@),
                    ) && rel_ok(
                        fns,
                        bs + param_bindings(fi.0@, ctr + ids_of_list(fns, fuel, es@)),
                        ctr + ids_of_list(fns, fuel, es@) + es@.len(),
                        (fuel - 1) as nat,
                        fi.1,
                        bodies1@[0],
                    ),
                    _ => false,
                }
            }),
            None => false,
        },
        Expr::Let(binds, bodies) => ctr + binds@.len() <= i32::MAX && match u {
            UnrolledExpr::Let(bnds, ubodies) => rel_ok_lbinds(
                fns,
                bs,
                ctr + binds@.len(),
                fuel,
                binds@,
                bnds@,
                ctr,
            ) && rel_ok_args(
                fns,
                bs + let_bindings(binds@, ctr),
                ctr + binds@.len() + ids_of_pairs(fns, fuel, binds@),
                fuel,
                bodies@,
                ubodies@,
            ),
            _ => false,
        },
    }
}

/// Success of expanding a list of expressions left to right; each element
/// starts from the counter the elements before it have reached.
pub open spec fn rel_ok_args(
    fns: Seq<Defn>,
    bs: Seq<(Symbol, VarId)>,
    ctr: int,
    fuel: nat,
    es: Seq<Expr>,
    us: Seq<UnrolledExpr>,
) -> bool
    decreases fuel, es,
{
    es.len() == us.len() && (if es.len() == 0 {
        true
    } else {
        rel_ok_args(fns, bs, ctr, fuel, es.drop_last(), us.drop_last()) && rel_ok(
            fns,
            bs,
            ctr + ids_of_list(fns, fuel, es.drop_last()),
            fuel,
            es.last(),
            us.last(),
        )
    })
}

/// Success of expanding the arguments of an application, where the
/// produced `let` pairs carry the consecutive fresh ids after `base`
/// (allocated only once every argument is expanded).
pub open spec fn rel_ok_app_binds(
    fns: Seq<Defn>,
    bs: Seq<(Symbol, VarId)>,
    ctr: int,
    fuel: nat,
    es: Seq<Expr>,
    bnds: Seq<(VarId, UnrolledExpr)>,
    base: int,
) -> bool
    decreases fuel, es,
{
    es.len() == bnds.len() && (if es.len() == 0 {
        true
    } else {
        bnds.last().0 as int == base + es.len() && rel_ok_app_binds(
            fns,
            bs,
            ctr,
            fuel,
            es.drop_last(),
            bnds.drop_last(),
            base,
        ) && rel_ok(
            fns,
            bs,
            ctr + ids_of_list(fns, fuel, es.drop_last()),
            fuel,
            es.last(),
            bnds.last().1,
        )
    })
}

/// Success of expanding the right-hand sides of `let` bindings, where the
/// produced pairs carry the consecutive fresh ids `base + 1 ..= base + n`
/// (allocated before any right-hand side is expanded).
pub open spec fn rel_ok_lbinds(
    fns: Seq<Defn>,
    bs: Seq<(Symbol, VarId)>,
    ctr: int,
    fuel: nat,
    binds: Seq<(Symbol, Expr)>,
    bnds: Seq<(VarId, UnrolledExpr)>,
    base: int,
) -> bool
    decreases fuel, binds,
{
    binds.len() == bnds.len() && (if binds.len() == 0 {
        true
    } else {
        bnds.last().0 as int == base + binds.len() && rel_ok_lbinds(
            fns,
            bs,
            ctr,
            fuel,
            binds.drop_last(),
            bnds.drop_last(),
            base,
        ) && rel_ok(
            fns,
            bs,
            ctr + ids_of_pairs(fns, fuel, binds.drop_last()),
            fuel,
            binds.last().1,
            bnds.last().1,
        )
    })
}

/// Success of expanding one surface builtin: every operand expands in
/// order and the operator is reproduced on the expanded operands.
/// Operators with no expansion rule never succeed.
pub open spec fn rel_ok_builtin(
    fns: Seq<Defn>,
    bs: Seq<(Symbol, VarId)>,
    ctr: int,
    fuel: nat,
    b: BuiltIn,
    u: UnrolledExpr,
) -> bool
    decreases fuel, b,
{
    match b {
        BuiltIn::Add(e1, e2) => match u {
            UnrolledExpr::BuiltIn(bx) => match *bx {
                ExpandedBuiltIn::Add(u1, u2) => rel_ok(fns, bs, ctr, fuel, e1, u1) && rel_ok(
                    fns,
                    bs,
                    ctr + ids_of(fns, fuel, e1),
                    fuel,
                    e2,
                    u2,
                ),
                _ => false,
            },
            _ => false,
        },
        BuiltIn::Sub(e1, e2) => match u {
            UnrolledExpr::BuiltIn(bx) => match *bx {
                ExpandedBuiltIn::Sub(u1, u2) => rel_ok(fns, bs, ctr, fuel, e1, u1) && rel_ok(
                    fns,
                    bs,
                    ctr + ids_of(fns, fuel, e1),
                    fuel,
                    e2,
                    u2,
                ),
                _ => false,
            },
            _ => false,
        },
        BuiltIn::Mul(e1, e2) => match u {
            UnrolledExpr::BuiltIn(bx) => match *bx {
                ExpandedBuiltIn::Mul(u1, u2) => rel_ok(fns, bs, ctr, fuel, e1, u1) && rel_ok(
                    fns,
                    bs,
                    ctr + ids_of(fns, fuel, e1),
                    fuel,
                    e2,
                    u2,
                ),
                _ => false,
            },
            _ => false,
        },
        BuiltIn::Div(e1, e2) => match u {
            UnrolledExpr::BuiltIn(bx) => match *bx {
                ExpandedBuiltIn::Div(u1, u2) => rel_ok(fns, bs, ctr, fuel, e1, u1) && rel_ok(
                    fns,
                    bs,
                    ctr + ids_of(fns, fuel, e1),
                    fuel,
                    e2,
                    u2,
                ),
                _ => false,
            },
            _ => false,
        },
        BuiltIn::Rem(e1, e2) => match u {
            UnrolledExpr::BuiltIn(bx) => match *bx {
                ExpandedBuiltIn::Rem(u1, u2) => rel_ok(fns, bs, ctr, fuel, e1, u1) && rel_ok(
                    fns,
                    bs,
                    ctr + ids_of(fns, fuel, e1),
                    fuel,
                    e2,
                    u2,
                ),
                _ => false,
            },
            _ => false,
        },
        BuiltIn::And(e1, e2) => match u {
            UnrolledExpr::BuiltIn(bx) => match *bx {
                ExpandedBuiltIn::And(u1, u2) => rel_ok(fns, bs, ctr, fuel, e1, u1) && rel_ok(
                    fns,
                    bs,
                    ctr + ids_of(fns, fuel, e1),
                    fuel,
                    e2,
                    u2,
                ),
                _ => false,
            },
            _ => false,
        },
        BuiltIn::Or(e1, e2) => match u {
            UnrolledExpr::BuiltIn(bx) => match *bx {
                ExpandedBuiltIn::Or(u1, u2) => rel_ok(fns, bs, ctr, fuel, e1, u1) && rel_ok(
                    fns,
                    bs,
                    ctr + ids_of(fns, fuel, e1),
                    fuel,
                    e2,
                    u2,
                ),
                _ => false,
            },
            _ => false,
        },
        BuiltIn::Xor(e1, e2) => match u {
            UnrolledExpr::BuiltIn(bx) => match *bx {
                ExpandedBuiltIn::Xor(u1, u2) => rel_ok(fns, bs, ctr, fuel, e1, u1) && rel_ok(
                    fns,
                    bs,
                    ctr + ids_of(fns, fuel, e1),
                    fuel,
                    e2,
                    u2,
                ),
                _ => false,
            },
            _ => false,
        },
        BuiltIn::Vpush(e1, e2) => match u {
            UnrolledExpr::BuiltIn(bx) => match *bx {
                ExpandedBuiltIn::Vpush(u1, u2) => rel_ok(fns, bs, ctr, fuel, e1, u1) && rel_ok(
                    fns,
                    bs,
                    ctr + ids_of(fns, fuel, e1),
                    fuel,
                    e2,
                    u2,
                ),
                _ => false,
            },
            _ => false,
        },
        BuiltIn::Vref(e1, e2) => match u {
            UnrolledExpr::BuiltIn(bx) => match *bx {
                ExpandedBuiltIn::Vref(u1, u2) => rel_ok(fns, bs, ctr, fuel, e1, u1) && rel_ok(
                    fns,
                    bs,
                    ctr + ids_of(fns, fuel, e1),
                    fuel,
                    e2,
                    u2,
                ),
                _ => false,
            },
            _ => false,
        },
        BuiltIn::Vappend(e1, e2) => match u {
            UnrolledExpr::BuiltIn(bx) => match *bx {
                ExpandedBuiltIn::Vappend(u1, u2) => rel_ok(fns, bs, ctr, fuel, e1, u1) && rel_ok(
                    fns,
                    bs,
                    ctr + ids_of(fns, fuel, e1),
                    fuel,
                    e2,
                    u2,
                ),
                _ => false,
            },
            _ => false,
        },
        BuiltIn::Not(e1) => match u {
            UnrolledExpr::BuiltIn(bx) => match *bx {
                ExpandedBuiltIn::Not(u1) => rel_ok(fns, bs, ctr, fuel, e1, u1),
                _ => false,
            },
            _ => false,
        },
        BuiltIn::Vlen(e1) => match u {
            UnrolledExpr::BuiltIn(bx) => match *bx {
                ExpandedBuiltIn::Vlen(u1) => rel_ok(fns, bs, ctr, fuel, e1, u1),
                _ => false,
            },
            _ => false,
        },
        BuiltIn::Hash(e1) => match u {
            UnrolledExpr::BuiltIn(bx) => match *bx {
                ExpandedBuiltIn::Hash(u1) => rel_ok(fns, bs, ctr, fuel, e1, u1),
                _ => false,
            },
            _ => false,
        },
        BuiltIn::Vempty => match u {
            UnrolledExpr::BuiltIn(bx) => match *bx {
                ExpandedBuiltIn::Vempty => true,
                _ => false,
            },
            _ => false,
        },
        BuiltIn::Vslice(_e1, _e2, _e3) => false,
        BuiltIn::Load(_s) => false,
        BuiltIn::Store(_s) => false,
    }
}

/// Failure of the expansion engine: expanding `e` aborts with exactly the
/// error `pe`, the first one an in-order traversal meets.
pub open spec fn rel_err(
    fns: Seq<Defn>,
    bs: Seq<(Symbol, VarId)>,
    ctr: int,
    fuel: nat,
    e: Expr,
    pe: ParseErr,
) -> bool
    decreases fuel, e,
{
    match e {
        Expr::Value(_v) => false,
        Expr::Var(x) => lookup(bs, x@) is None && match pe {
            ParseErr::UndefinedVariable(s) => s@ == x@,
            _ => false,
        },
        Expr::SetVar(x, e1) => match lookup(bs, x@) {
            Some(_v) => rel_err(fns, bs, ctr, fuel, *e1, pe),
            None => match pe {
                ParseErr::UndefinedVariable(s) => s@ == x@,
                _ => false,
            },
        },
        Expr::BuiltIn(b) => rel_err_builtin(fns, bs, ctr, fuel, *b, pe),
        Expr::App(f, es) => match lookup_fn(fns, f@) {
            None => match pe {
                ParseErr::UndefinedFunction(s) => s@ == f@,
                _ => false,
            },
            Some(fi) => if fi.0@.len() != es@.len() {
                match pe {
                    ParseErr::ArityMismatch(expected, given) => expected == fi.0@.len() && given
                        == es@.len(),
                    _ => false,
                }
            } else if !can_ok_list(fns, bs, ctr, fuel, es@) {
                rel_err_list(fns, bs, ctr, fuel, es@, pe)
            } else if ctr + ids_of_list(fns, fuel, es@) + es@.len() > i32::MAX {
                pe == ParseErr::IdsExhausted
            } else if fuel == 0 {
                pe == ParseErr::RecursionLimit
            } else {
                rel_err(
                    fns,
                    bs + param_bindings(fi.0@, ctr + ids_of_list(fns, fuel, es@)),
                    ctr + ids_of_list(fns, fuel, es@) + es@.len(),
                    (fuel - 1) as nat,
                    fi.1,
                    pe,
                )
            },
        },
        Expr::Let(binds, bodies) => if ctr + binds@.len() > i32::MAX {
            pe == ParseErr::IdsExhausted
        } else if !can_ok_pairs(fns, bs, ctr + binds@.len(), fuel, binds@) {
            rel_err_pairs(fns, bs, ctr + binds@.len(), fuel, binds@, pe)
        } else {
            rel_err_list(
                fns,
                bs + let_bindings(binds@, ctr),
                ctr + binds@.len() + ids_of_pairs(fns, fuel, binds@),
                fuel,
                bodies@,
                pe,
            )
        },
    }
}

/// Failure of expanding a list of expressions: the first element whose
/// expansion fails decides the error.
pub open spec fn rel_err_list(
    fns: Seq<Defn>,
    bs: Seq<(Symbol, VarId)>,
    ctr: int,
    fuel: nat,
    es: Seq<Expr>,
    pe: ParseErr,
) -> bool
    decreases fuel, es,
{
    if es.len() == 0 {
        false
    } else {
        rel_err_list(fns, bs, ctr, fuel, es.drop_last(), pe) || (can_ok_list(
            fns,
            bs,
            ctr,
            fuel,
            es.drop_last(),
        ) && rel_err(fns, bs, ctr + ids_of_list(fns, fuel, es.drop_last()), fuel, es.last(), pe))
    }
}

/// Failure of expanding the right-hand sides of `let` bindings: the first
/// failing right-hand side decides the error.
pub open spec fn rel_err_pairs(
    fns: Seq<Defn>,
    bs: Seq<(Symbol, VarId)>,
    ctr: int,
    fuel: nat,
    binds: Seq<(Symbol, Expr)>,
    pe: ParseErr,
) -> bool
    decreases fuel, binds,
{
    if binds.len() == 0 {
        false
    } else {
        rel_err_pairs(fns, bs, ctr, fuel, binds.drop_last(), pe) || (can_ok_pairs(
            fns,
            bs,
            ctr,
            fuel,
            binds.drop_last(),
        ) && rel_err(
            fns,
            bs,
            ctr + ids_of_pairs(fns, fuel, binds.drop_last()),
            fuel,
            binds.last().1,
            pe,
        ))
    }
}

/// Failure of expanding one surface builtin: the first failing operand
/// decides, and an operator with no expansion rule fails by itself.
pub open spec fn rel_err_builtin(
    fns: Seq<Defn>,
    bs: Seq<(Symbol, VarId)>,
    ctr: int,
    fuel: nat,
    b: BuiltIn,
    pe: ParseErr,
) -> bool
    decreases fuel, b,
{
    match b {
        BuiltIn::Add(e1, e2) => if can_ok(fns, bs, ctr, fuel, e1) {
            rel_err(fns, bs, ctr + ids_of(fns, fuel, e1), fuel, e2, pe)
        } else {
            rel_err(fns, bs, ctr, fuel, e1, pe)
        },
        BuiltIn::Sub(e1, e2) => if can_ok(fns, bs, ctr, fuel, e1) {
            rel_err(fns, bs, ctr + ids_of(fns, fuel, e1), fuel, e2, pe)
        } else {
            rel_err(fns, bs, ctr, fuel, e1, pe)
        },
        BuiltIn::Mul(e1, e2) => if can_ok(fns, bs, ctr, fuel, e1) {
            rel_err(fns, bs, ctr + ids_of(fns, fuel, e1), fuel, e2, pe)
        } else {
            rel_err(fns, bs, ctr, fuel, e1, pe)
        },
        BuiltIn::Div(e1, e2) => if can_ok(fns, bs, ctr, fuel, e1) {
            rel_err(fns, bs, ctr + ids_of(fns, fuel, e1), fuel, e2, pe)
        } else {
            rel_err(fns, bs, ctr, fuel, e1, pe)
        },
        BuiltIn::Rem(e1, e2) => if can_ok(fns, bs, ctr, fuel, e1) {
            rel_err(fns, bs, ctr + ids_of(fns, fuel, e1), fuel, e2, pe)
        } else {
            rel_err(fns, bs, ctr, fuel, e1, pe)
        },
        BuiltIn::And(e1, e2) => if can_ok(fns, bs, ctr, fuel, e1) {
            rel_err(fns, bs, ctr + ids_of(fns, fuel, e1), fuel, e2, pe)
        } else {
            rel_err(fns, bs, ctr, fuel, e1, pe)
        },
        BuiltIn::Or(e1, e2) => if can_ok(fns, bs, ctr, fuel, e1) {
            rel_err(fns, bs, ctr + ids_of(fns, fuel, e1), fuel, e2, pe)
        } else {
            rel_err(fns, bs, ctr, fuel, e1, pe)
        },
        BuiltIn::Xor(e1, e2) => if can_ok(fns, bs, ctr, fuel, e1) {
            rel_err(fns, bs, ctr + ids_of(fns, fuel, e1), fuel, e2, pe)
        } else {
            rel_err(fns, bs, ctr, fuel, e1, pe)
        },
        BuiltIn::Vpush(e1, e2) => if can_ok(fns, bs, ctr, fuel, e1) {
            rel_err(fns, bs, ctr + ids_of(fns, fuel, e1), fuel, e2, pe)
        } else {
            rel_err(fns, bs, ctr, fuel, e1, pe)
        },
        BuiltIn::Vref(e1, e2) => if can_ok(fns, bs, ctr, fuel, e1) {
            rel_err(fns, bs, ctr + ids_of(fns, fuel, e1), fuel, e2, pe)
        } else {
            rel_err(fns, bs, ctr, fuel, e1, pe)
        },
        BuiltIn::Vappend(e1, e2) => if can_ok(fns, bs, ctr, fuel, e1) {
            rel_err(fns, bs, ctr + ids_of(fns, fuel, e1), fuel, e2, pe)
        } else {
            rel_err(fns, bs, ctr, fuel, e1, pe)
        },
        BuiltIn::Not(e1) => rel_err(fns, bs, ctr, fuel, e1, pe),
        BuiltIn::Vlen(e1) => rel_err(fns, bs, ctr, fuel, e1, pe),
        BuiltIn::Hash(e1) => rel_err(fns, bs, ctr, fuel, e1, pe),
        BuiltIn::Vempty => false,
        BuiltIn::Vslice(_e1, _e2, _e3) => pe == ParseErr::UnsupportedBuiltIn,
        BuiltIn::Load(_s) => pe == ParseErr::UnsupportedBuiltIn,
        BuiltIn::Store(_s) => pe == ParseErr::UnsupportedBuiltIn,
    }
}


/// Each element of a successfully expanding list itself expands, starting
/// from the counter the elements before it have reached.
proof fn lemma_can_ok_list_index(
    fns: Seq<Defn>,
    bs: Seq<(Symbol, VarId)>,
    ctr: int,
    fuel: nat,
    es: Seq<Expr>,
    i: int,
)
    requires
        can_ok_list(fns, bs, ctr, fuel, es),
        0 <= i < es.len(),
    ensures
        can_ok(fns, bs, ctr + ids_of_list(fns, fuel, es.take(i)), fuel, es[i]),
    decreases es.len(),
{
    if i == es.len() - 1 {
        assert(es.take(i) =~= es.drop_last());
    } else {
        lemma_can_ok_list_index(fns, bs, ctr, fuel, es.drop_last(), i);
        assert(es.drop_last().take(i) =~= es.take(i));
        assert(es.drop_last()[i] == es[i]);
    }
}

/// As [`lemma_can_ok_list_index`], for `let` binding pairs.
proof fn lemma_can_ok_pairs_index(
    fns: Seq<Defn>,
    bs: Seq<(Symbol, VarId)>,
    ctr: int,
    fuel: nat,
    binds: Seq<(Symbol, Expr)>,
    i: int,
)
    requires
        can_ok_pairs(fns, bs, ctr, fuel, binds),
        0 <= i < binds.len(),
    ensures
        can_ok(fns, bs, ctr + ids_of_pairs(fns, fuel, binds.take(i)), fuel, binds[i].1),
    decreases binds.len(),
{
    if i == binds.len() - 1 {
        assert(binds.take(i) =~= binds.drop_last());
    } else {
        lemma_can_ok_pairs_index(fns, bs, ctr, fuel, binds.drop_last(), i);
        assert(binds.drop_last().take(i) =~= binds.take(i));
        assert(binds.drop_last()[i] == binds[i]);
    }
}

/// A failure inside a prefix of a list is a failure of the whole list.
proof fn lemma_err_list_extend(
    fns: Seq<Defn>,
    bs: Seq<(Symbol, VarId)>,
    ctr: int,
    fuel: nat,
    es: Seq<Expr>,
    pe: ParseErr,
    k: int,
)
    requires
        0 <= k <= es.len(),
        rel_err_list(fns, bs, ctr, fuel, es.take(k), pe),
    ensures
        rel_err_list(fns, bs, ctr, fuel, es, pe),
    decreases es.len() - k,
{
    if k == es.len() {
        assert(es.take(k) =~= es);
    } else {
        assert(es.take(k + 1).drop_last() =~= es.take(k));
        lemma_err_list_extend(fns, bs, ctr, fuel, es, pe, k + 1);
    }
}

/// As [`lemma_err_list_extend`], for `let` binding pairs.
proof fn lemma_err_pairs_extend(
    fns: Seq<Defn>,
    bs: Seq<(Symbol, VarId)>,
    ctr: int,
    fuel: nat,
    binds: Seq<(Symbol, Expr)>,
    pe: ParseErr,
    k: int,
)
    requires
        0 <= k <= binds.len(),
        rel_err_pairs(fns, bs, ctr, fuel, binds.take(k), pe),
    ensures
        rel_err_pairs(fns, bs, ctr, fuel, binds, pe),
    decreases binds.len() - k,
{
    if k == binds.len() {
        assert(binds.take(k) =~= binds);
    } else {
        assert(binds.take(k + 1).drop_last() =~= binds.take(k));
        lemma_err_pairs_extend(fns, bs, ctr, fuel, binds, pe, k + 1);
    }
}

/// Package chained argument expansions and their fresh ids as the pairs
/// of the `let` node an application expands to.
proof fn lemma_args_to_app_binds(
    fns: Seq<Defn>,
    bs: Seq<(Symbol, VarId)>,
    ctr: int,
    fuel: nat,
    es: Seq<Expr>,
    us: Seq<UnrolledExpr>,
    bnds: Seq<(VarId, UnrolledExpr)>,
    base: int,
)
    requires
        rel_ok_args(fns, bs, ctr, fuel, es, us),
        bnds.len() == es.len(),
        us.len() == es.len(),
        forall|i: int| #![all_triggers]
            0 <= i < bnds.len() ==> bnds[i].1 == us[i] && bnds[i].0 as int == base + 1 + i,
    ensures
        rel_ok_app_binds(fns, bs, ctr, fuel, es, bnds, base),
    decreases es.len(),
{
    if es.len() == 0 {
    } else {
        let n = es.len() as int;
        assert(bnds[n - 1].1 == us[n - 1] && bnds[n - 1].0 as int == base + 1 + (n - 1));
        assert forall|i2: int| #![all_triggers]
            0 <= i2 < bnds.drop_last().len() implies bnds.drop_last()[i2].1 == us.drop_last()[i2]
                && bnds.drop_last()[i2].0 as int == base + 1 + i2 by {
            assert(bnds[i2].1 == us[i2] && bnds[i2].0 as int == base + 1 + i2);
        }
        lemma_args_to_app_binds(
            fns,
            bs,
            ctr,
            fuel,
            es.drop_last(),
            us.drop_last(),
            bnds.drop_last(),
            base,
        );
        assert(bnds.last().1 == us.last());
        assert(rel_ok_app_binds(fns, bs, ctr, fuel, es, bnds, base));
    }
}

/// A simple mangler that hands out the next variable id: the successor of
/// the last one it gave.
pub struct LinearMangler {
    pub idx: VarId,
}

impl LinearMangler {
    /// The next fresh variable id.
    pub fn next(&mut self) -> (r: VarId)
        requires
            old(self).idx < i32::MAX,
        ensures
            final(self).idx == old(self).idx + 1,
            r == final(self).idx,
    {
        self.idx = self.idx + 1;
        self.idx
    }
}

/// Resolve a name in the binding environment, innermost binding first;
/// an unbound name is an undefined-variable error.
pub fn try_get_var(sym: &Symbol, bs: &Bindings) -> (r: Result<VarId, ParseErr>)
    ensures
        match r {
            Ok(v) => lookup(bs@, sym@) == Some(v),
            Err(pe) => lookup(bs@, sym@) is None && match pe {
                ParseErr::UndefinedVariable(s) => s@ == sym@,
                _ => false,
            },
        },
{
    let mut i: usize = bs.len();
    proof {
        assert(bs@.take(bs@.len() as int) =~= bs@);
    }
    while i > 0
        invariant
            i <= bs@.len(),
            lookup(bs@, sym@) == lookup(bs@.take(i as int), sym@),
        decreases i,
    {
        i = i - 1;
        proof {
            assert(bs@.take(i as int + 1).drop_last() =~= bs@.take(i as int));
        }
        if bs[i].0 == *sym {
            return Ok(bs[i].1);
        }
    }
    Err(ParseErr::UndefinedVariable(sym.clone()))
}

/// Find the index of the definition a function name resolves to, scanning
/// from the end so that a later definition of the same name wins.
fn find_fn(fns: &Vec<Defn>, f: &Symbol) -> (r: Option<usize>)
    ensures
        match r {
            Some(i) => i < fns@.len() && lookup_fn(fns@, f@) == Some(fns@[i as int].1),
            None => lookup_fn(fns@, f@) is None,
        },
{
    let mut i: usize = fns.len();
    proof {
        assert(fns@.take(fns@.len() as int) =~= fns@);
    }
    while i > 0
        invariant
            i <= fns@.len(),
            lookup_fn(fns@, f@) == lookup_fn(fns@.take(i as int), f@),
        decreases i,
    {
        i = i - 1;
        proof {
            assert(fns@.take(i as int + 1).drop_last() =~= fns@.take(i as int));
        }
        if fns[i].0 == *f {
            return Some(i);
        }
    }
    None
}

/// Copy a byte vector element by element.
fn clone_bytes(v: &Vec<u8>) -> (r: Vec<u8>)
    ensures
        r@ == v@,
{
    let mut r: Vec<u8> = Vec::new();
    let mut i: usize = 0;
    while i < v.len()
        invariant
            i <= v@.len(),
            r@ == v@.take(i as int),
        decreases v@.len() - i,
    {
        r.push(v[i]);
        proof {
            assert(v@.take(i as int).push(v@[i as int]) =~= v@.take(i as int + 1));
        }
        i = i + 1;
    }
    proof {
        assert(v@.take(v@.len() as int) =~= v@);
    }
    r
}

/// Copy a literal value; the copy carries the same model.
fn clone_value(v: &Value) -> (r: Value)
    ensures
        value_model(r) == value_model(*v),
{
    match v {
        Value::Int(n) => Value::Int(Int256 { bytes: clone_bytes(&n.bytes) }),
        Value::Bytes(b) => Value::Bytes(clone_bytes(b)),
    }
}

/// Evaluate a surface expression, tracking symbols and unrolling function
/// applications until only builtin operators remain.
pub trait Evaluator: Sized {
    /// The function definition table this evaluator expands against.
    spec fn table(&self) -> Seq<Defn>;

    /// Build an evaluator over a list of function definitions.
    fn new(fns: Vec<Defn>) -> (s: Self)
        ensures
            s.table() == fns@,
    ;

    /// Recursively unroll function invocations in an expression so that
    /// only builtins are left, renaming every binding to a fresh id. The
    /// inlining budget of one past the table size admits every acyclic
    /// call chain, so only cyclic definitions are refused. Expansion
    /// returns a result exactly when [`can_ok`] holds; the result is
    /// pinned by [`rel_ok`] and the error by [`rel_err`].
    fn expand_fns(&self, e: &Expr) -> (r: Result<UnrolledExpr, ParseErr>)
        requires
            self.table().len() < usize::MAX,
        ensures
            match r {
                Ok(u) => rel_ok(
                    self.table(),
                    Seq::empty(),
                    MANGLER_SEED as int,
                    (self.table().len() + 1) as nat,
                    *e,
                    u,
                ) && can_ok(
                    self.table(),
                    Seq::empty(),
                    MANGLER_SEED as int,
                    (self.table().len() + 1) as nat,
                    *e,
                ),
                Err(pe) => rel_err(
                    self.table(),
                    Seq::empty(),
                    MANGLER_SEED as int,
                    (self.table().len() + 1) as nat,
                    *e,
                    pe,
                ) && !can_ok(
                    self.table(),
                    Seq::empty(),
                    MANGLER_SEED as int,
                    (self.table().len() + 1) as nat,
                    *e,
                ),
            },
    ;
}

/// The expansion environment: the read-only function definition table.
pub struct Env {
    fns: Vec<Defn>,
}

impl Evaluator for Env {
    closed spec fn table(&self) -> Seq<Defn> {
        self.fns@
    }

    fn new(fns: Vec<Defn>) -> (s: Self) {
        Env { fns }
    }

    fn expand_fns(&self, e: &Expr) -> (r: Result<UnrolledExpr, ParseErr>) {
        let mut bs: Bindings = Vec::new();
        let mut mangler = LinearMangler { idx: MANGLER_SEED };
        let fuel: usize = self.fns.len() + 1;
        let ghost bs0 = bs@;
        let r = self.expand_mangle_fns(e, &mut bs, &mut mangler, fuel);
        proof {
            assert(bs0 =~= Seq::<(Symbol, VarId)>::empty());
            assert(self.table() == self.fns@);
        }
        r
    }
}

impl Env {
    /// Expand and mangle one expression under the current bindings and
    /// mangler state; the bindings are restored before returning.
    #[verifier::loop_isolation(false)]
    fn expand_mangle_fns(
        &self,
        expr: &Expr,
        bs: &mut Bindings,
        mangler: &mut LinearMangler,
        fuel: usize,
    ) -> (r: Result<UnrolledExpr, ParseErr>)
        requires
            old(mangler).idx >= MANGLER_SEED,
        ensures
            final(bs)@ == old(bs)@,
            final(mangler).idx >= old(mangler).idx,
            match r {
                Ok(u) => rel_ok(self.fns@, old(bs)@, old(mangler).idx as int, fuel as nat, *expr, u)
                    && can_ok(self.fns@, old(bs)@, old(mangler).idx as int, fuel as nat, *expr)
                    && final(mangler).idx as int == old(mangler).idx + ids_of(
                    self.fns@,
                    fuel as nat,
                    *expr,
                ),
                Err(pe) => rel_err(
                    self.fns@,
                    old(bs)@,
                    old(mangler).idx as int,
                    fuel as nat,
                    *expr,
                    pe,
                ) && !can_ok(self.fns@, old(bs)@, old(mangler).idx as int, fuel as nat, *expr),
            },
        decreases fuel, *expr, 1int,
    {
        match expr {
            Expr::Value(v) => Ok(UnrolledExpr::Value(clone_value(v))),
            Expr::Var(x) => match try_get_var(x, bs) {
                Ok(v) => Ok(UnrolledExpr::Var(v)),
                Err(pe) => Err(pe),
            },
            Expr::SetVar(x, e1) => {
                let v = match try_get_var(x, bs) {
                    Ok(v) => v,
                    Err(pe) => {
                        return Err(pe);
                    },
                };
                match self.expand_mangle_fns(&**e1, bs, mangler, fuel) {
                    Ok(u1) => Ok(UnrolledExpr::SetVar(v, Box::new(u1))),
                    Err(pe) => Err(pe),
                }
            },
            Expr::BuiltIn(b) => self.expand_builtin(&**b, bs, mangler, fuel),
            Expr::App(f, es) => self.expand_app(expr, f, es, bs, mangler, fuel),
            Expr::Let(binds, bodies) => self.expand_let(expr, binds, bodies, bs, mangler, fuel),
        }
    }

    /// Expand one surface builtin application, operand by operand.
    fn expand_builtin(
        &self,
        b: &BuiltIn,
        bs: &mut Bindings,
        mangler: &mut LinearMangler,
        fuel: usize,
    ) -> (r: Result<UnrolledExpr, ParseErr>)
        requires
            old(mangler).idx >= MANGLER_SEED,
        ensures
            final(bs)@ == old(bs)@,
            final(mangler).idx >= old(mangler).idx,
            match r {
                Ok(u) => rel_ok_builtin(
                    self.fns@,
                    old(bs)@,
                    old(mangler).idx as int,
                    fuel as nat,
                    *b,
                    u,
                ) && can_ok_builtin(self.fns@, old(bs)@, old(mangler).idx as int, fuel as nat, *b)
                    && final(mangler).idx as int == old(mangler).idx + ids_of_builtin(
                    self.fns@,
                    fuel as nat,
                    *b,
                ),
                Err(pe) => rel_err_builtin(
                    self.fns@,
                    old(bs)@,
                    old(mangler).idx as int,
                    fuel as nat,
                    *b,
                    pe,
                ) && !can_ok_builtin(
                    self.fns@,
                    old(bs)@,
                    old(mangler).idx as int,
                    fuel as nat,
                    *b,
                ),
            },
        decreases fuel, *b, 0int,
    {
        let ghost fns0 = self.fns@;
        let ghost bs0 = bs@;
        let ghost c0 = mangler.idx as int;
        let ghost fl = fuel as nat;
        match b {
            BuiltIn::Add(e1, e2) => {
                let u1 = match self.expand_mangle_fns(e1, bs, mangler, fuel) {
                    Ok(u) => u,
                    Err(pe) => {
                        return Err(pe);
                    },
                };
                let ghost gu1 = u1;
                match self.expand_mangle_fns(e2, bs, mangler, fuel) {
                    Ok(u2) => {
                        let ghost gu2 = u2;
                        let r = UnrolledExpr::BuiltIn(Box::new(ExpandedBuiltIn::Add(u1, u2)));
                        proof {
                            assert(rel_ok(fns0, bs0, c0, fl, *e1, gu1));
                            assert(rel_ok(fns0, bs0, c0 + ids_of(fns0, fl, *e1), fl, *e2, gu2));
                            assert(rel_ok_builtin(fns0, bs0, c0, fl, *b, r));
                        }
                        Ok(r)
                    },
                    Err(pe) => {
                        proof {
                            assert(rel_err_builtin(fns0, bs0, c0, fl, *b, pe));
                        }
                        Err(pe)
                    },
                }
            },
            BuiltIn::Sub(e1, e2) => {
                let u1 = match self.expand_mangle_fns(e1, bs, mangler, fuel) {
                    Ok(u) => u,
                    Err(pe) => {
                        return Err(pe);
                    },
                };
                let ghost gu1 = u1;
                match self.expand_mangle_fns(e2, bs, mangler, fuel) {
                    Ok(u2) => {
                        let ghost gu2 = u2;
                        let r = UnrolledExpr::BuiltIn(Box::new(ExpandedBuiltIn::Sub(u1, u2)));
                        proof {
                            assert(rel_ok(fns0, bs0, c0, fl, *e1, gu1));
                            assert(rel_ok(fns0, bs0, c0 + ids_of(fns0, fl, *e1), fl, *e2, gu2));
                            assert(rel_ok_builtin(fns0, bs0, c0, fl, *b, r));
                        }
                        Ok(r)
                    },
                    Err(pe) => {
                        proof {
                            assert(rel_err_builtin(fns0, bs0, c0, fl, *b, pe));
                        }
                        Err(pe)
                    },
                }
            },
            BuiltIn::Mul(e1, e2) => {
                let u1 = match self.expand_mangle_fns(e1, bs, mangler, fuel) {
                    Ok(u) => u,
                    Err(pe) => {
                        return Err(pe);
                    },
                };
                let ghost gu1 = u1;
                match self.expand_mangle_fns(e2, bs, mangler, fuel) {
                    Ok(u2) => {
                        let ghost gu2 = u2;
                        let r = UnrolledExpr::BuiltIn(Box::new(ExpandedBuiltIn::Mul(u1, u2)));
                        proof {
                            assert(rel_ok(fns0, bs0, c0, fl, *e1, gu1));
                            assert(rel_ok(fns0, bs0, c0 + ids_of(fns0, fl, *e1), fl, *e2, gu2));
                            assert(rel_ok_builtin(fns0, bs0, c0, fl, *b, r));
                        }
                        Ok(r)
                    },
                    Err(pe) => {
                        proof {
                            assert(rel_err_builtin(fns0, bs0, c0, fl, *b, pe));
                        }
                        Err(pe)
                    },
                }
            },
            BuiltIn::Div(e1, e2) => {
                let u1 = match self.expand_mangle_fns(e1, bs, mangler, fuel) {
                    Ok(u) => u,
                    Err(pe) => {
                        return Err(pe);
                    },
                };
                let ghost gu1 = u1;
                match self.expand_mangle_fns(e2, bs, mangler, fuel) {
                    Ok(u2) => {
                        let ghost gu2 = u2;
                        let r = UnrolledExpr::BuiltIn(Box::new(ExpandedBuiltIn::Div(u1, u2)));
                        proof {
                            assert(rel_ok(fns0, bs0, c0, fl, *e1, gu1));
                            assert(rel_ok(fns0, bs0, c0 + ids_of(fns0, fl, *e1), fl, *e2, gu2));
                            assert(rel_ok_builtin(fns0, bs0, c0, fl, *b, r));
                        }
                        Ok(r)
                    },
                    Err(pe) => {
                        proof {
                            assert(rel_err_builtin(fns0, bs0, c0, fl, *b, pe));
                        }
                        Err(pe)
                    },
                }
            },
            BuiltIn::Rem(e1, e2) => {
                let u1 = match self.expand_mangle_fns(e1, bs, mangler, fuel) {
                    Ok(u) => u,
                    Err(pe) => {
                        return Err(pe);
                    },
                };
                let ghost gu1 = u1;
                match self.expand_mangle_fns(e2, bs, mangler, fuel) {
                    Ok(u2) => {
                        let ghost gu2 = u2;
                        let r = UnrolledExpr::BuiltIn(Box::new(ExpandedBuiltIn::Rem(u1, u2)));
                        proof {
                            assert(rel_ok(fns0, bs0, c0, fl, *e1, gu1));
                            assert(rel_ok(fns0, bs0, c0 + ids_of(fns0, fl, *e1), fl, *e2, gu2));
                            assert(rel_ok_builtin(fns0, bs0, c0, fl, *b, r));
                        }
                        Ok(r)
                    },
                    Err(pe) => {
                        proof {
                            assert(rel_err_builtin(fns0, bs0, c0, fl, *b, pe));
                        }
                        Err(pe)
                    },
                }
            },
            BuiltIn::And(e1, e2) => {
                let u1 = match self.expand_mangle_fns(e1, bs, mangler, fuel) {
                    Ok(u) => u,
                    Err(pe) => {
                        return Err(pe);
                    },
                };
                let ghost gu1 = u1;
                match self.expand_mangle_fns(e2, bs, mangler, fuel) {
                    Ok(u2) => {
                        let ghost gu2 = u2;
                        let r = UnrolledExpr::BuiltIn(Box::new(ExpandedBuiltIn::And(u1, u2)));
                        proof {
                            assert(rel_ok(fns0, bs0, c0, fl, *e1, gu1));
                            assert(rel_ok(fns0, bs0, c0 + ids_of(fns0, fl, *e1), fl, *e2, gu2));
                            assert(rel_ok_builtin(fns0, bs0, c0, fl, *b, r));
                        }
                        Ok(r)
                    },
                    Err(pe) => {
                        proof {
                            assert(rel_err_builtin(fns0, bs0, c0, fl, *b, pe));
                        }
                        Err(pe)
                    },
                }
            },
            BuiltIn::Or(e1, e2) => {
                let u1 = match self.expand_mangle_fns(e1, bs, mangler, fuel) {
                    Ok(u) => u,
                    Err(pe) => {
                        return Err(pe);
                    },
                };
                let ghost gu1 = u1;
                match self.expand_mangle_fns(e2, bs, mangler, fuel) {
                    Ok(u2) => {
                        let ghost gu2 = u2;
                        let r = UnrolledExpr::BuiltIn(Box::new(ExpandedBuiltIn::Or(u1, u2)));
                        proof {
                            assert(rel_ok(fns0, bs0, c0, fl, *e1, gu1));
                            assert(rel_ok(fns0, bs0, c0 + ids_of(fns0, fl, *e1), fl, *e2, gu2));
                            assert(rel_ok_builtin(fns0, bs0, c0, fl, *b, r));
                        }
                        Ok(r)
                    },
                    Err(pe) => {
                        proof {
                            assert(rel_err_builtin(fns0, bs0, c0, fl, *b, pe));
                        }
                        Err(pe)
                    },
                }
            },
            BuiltIn::Xor(e1, e2) => {
                let u1 = match self.expand_mangle_fns(e1, bs, mangler, fuel) {
                    Ok(u) => u,
                    Err(pe) => {
                        return Err(pe);
                    },
                };
                let ghost gu1 = u1;
                match self.expand_mangle_fns(e2, bs, mangler, fuel) {
                    Ok(u2) => {
                        let ghost gu2 = u2;
                        let r = UnrolledExpr::BuiltIn(Box::new(ExpandedBuiltIn::Xor(u1, u2)));
                        proof {
                            assert(rel_ok(fns0, bs0, c0, fl, *e1, gu1));
                            assert(rel_ok(fns0, bs0, c0 + ids_of(fns0, fl, *e1), fl, *e2, gu2));
                            assert(rel_ok_builtin(fns0, bs0, c0, fl, *b, r));
                        }
                        Ok(r)
                    },
                    Err(pe) => {
                        proof {
                            assert(rel_err_builtin(fns0, bs0, c0, fl, *b, pe));
                        }
                        Err(pe)
                    },
                }
            },
            BuiltIn::Vpush(e1, e2) => {
                let u1 = match self.expand_mangle_fns(e1, bs, mangler, fuel) {
                    Ok(u) => u,
                    Err(pe) => {
                        return Err(pe);
                    },
                };
                let ghost gu1 = u1;
                match self.expand_mangle_fns(e2, bs, mangler, fuel) {
                    Ok(u2) => {
                        let ghost gu2 = u2;
                        let r = UnrolledExpr::BuiltIn(Box::new(ExpandedBuiltIn::Vpush(u1, u2)));
                        proof {
                            assert(rel_ok(fns0, bs0, c0, fl, *e1, gu1));
                            assert(rel_ok(fns0, bs0, c0 + ids_of(fns0, fl, *e1), fl, *e2, gu2));
                            assert(rel_ok_builtin(fns0, bs0, c0, fl, *b, r));
                        }
                        Ok(r)
                    },
                    Err(pe) => {
                        proof {
                            assert(rel_err_builtin(fns0, bs0, c0, fl, *b, pe));
                        }
                        Err(pe)
                    },
                }
            },
            BuiltIn::Vref(e1, e2) => {
                let u1 = match self.expand_mangle_fns(e1, bs, mangler, fuel) {
                    Ok(u) => u,
                    Err(pe) => {
                        return Err(pe);
                    },
                };
                let ghost gu1 = u1;
                match self.expand_mangle_fns(e2, bs, mangler, fuel) {
                    Ok(u2) => {
                        let ghost gu2 = u2;
                        let r = UnrolledExpr::BuiltIn(Box::new(ExpandedBuiltIn::Vref(u1, u2)));
                        proof {
                            assert(rel_ok(fns0, bs0, c0, fl, *e1, gu1));
                            assert(rel_ok(fns0, bs0, c0 + ids_of(fns0, fl, *e1), fl, *e2, gu2));
                            assert(rel_ok_builtin(fns0, bs0, c0, fl, *b, r));
                        }
                        Ok(r)
                    },
                    Err(pe) => {
                        proof {
                            assert(rel_err_builtin(fns0, bs0, c0, fl, *b, pe));
                        }
                        Err(pe)
                    },
                }
            },
            BuiltIn::Vappend(e1, e2) => {
                let u1 = match self.expand_mangle_fns(e1, bs, mangler, fuel) {
                    Ok(u) => u,
                    Err(pe) => {
                        return Err(pe);
                    },
                };
                let ghost gu1 = u1;
                match self.expand_mangle_fns(e2, bs, mangler, fuel) {
                    Ok(u2) => {
                        let ghost gu2 = u2;
                        let r = UnrolledExpr::BuiltIn(Box::new(ExpandedBuiltIn::Vappend(u1, u2)));
                        proof {
                            assert(rel_ok(fns0, bs0, c0, fl, *e1, gu1));
                            assert(rel_ok(fns0, bs0, c0 + ids_of(fns0, fl, *e1), fl, *e2, gu2));
                            assert(rel_ok_builtin(fns0, bs0, c0, fl, *b, r));
                        }
                        Ok(r)
                    },
                    Err(pe) => {
                        proof {
                            assert(rel_err_builtin(fns0, bs0, c0, fl, *b, pe));
                        }
                        Err(pe)
                    },
                }
            },
            BuiltIn::Not(e1) => {
                match self.expand_mangle_fns(e1, bs, mangler, fuel) {
                    Ok(u1) => {
                        let ghost gu1 = u1;
                        let r = UnrolledExpr::BuiltIn(Box::new(ExpandedBuiltIn::Not(u1)));
                        proof {
                            assert(rel_ok(fns0, bs0, c0, fl, *e1, gu1));
                            assert(rel_ok_builtin(fns0, bs0, c0, fl, *b, r));
                        }
                        Ok(r)
                    },
                    Err(pe) => Err(pe),
                }
            },
            BuiltIn::Vlen(e1) => {
                match self.expand_mangle_fns(e1, bs, mangler, fuel) {
                    Ok(u1) => {
                        let ghost gu1 = u1;
                        let r = UnrolledExpr::BuiltIn(Box::new(ExpandedBuiltIn::Vlen(u1)));
                        proof {
                            assert(rel_ok(fns0, bs0, c0, fl, *e1, gu1));
                            assert(rel_ok_builtin(fns0, bs0, c0, fl, *b, r));
                        }
                        Ok(r)
                    },
                    Err(pe) => Err(pe),
                }
            },
            BuiltIn::Hash(e1) => {
                match self.expand_mangle_fns(e1, bs, mangler, fuel) {
                    Ok(u1) => {
                        let ghost gu1 = u1;
                        let r = UnrolledExpr::BuiltIn(Box::new(ExpandedBuiltIn::Hash(u1)));
                        proof {
                            assert(rel_ok(fns0, bs0, c0, fl, *e1, gu1));
                            assert(rel_ok_builtin(fns0, bs0, c0, fl, *b, r));
                        }
                        Ok(r)
                    },
                    Err(pe) => Err(pe),
                }
            },

            BuiltIn::Vempty => {
                let r = UnrolledExpr::BuiltIn(Box::new(ExpandedBuiltIn::<UnrolledExpr>::Vempty));
                proof {
                    assert(rel_ok_builtin(fns0, bs0, c0, fl, *b, r));
                }
                Ok(r)
            },
            BuiltIn::Vslice(_e1, _e2, _e3) => Err(ParseErr::UnsupportedBuiltIn),
            BuiltIn::Load(_s) => Err(ParseErr::UnsupportedBuiltIn),
            BuiltIn::Store(_s) => Err(ParseErr::UnsupportedBuiltIn),
        }
    }
}


impl Env {
    /// Expand a function application: inline the callee's body under fresh
    /// ids for its parameters, binding each id to its expanded argument.
    #[verifier::loop_isolation(false)]
    fn expand_app(
        &self,
        expr: &Expr,
        f: &Symbol,
        es: &Vec<Expr>,
        bs: &mut Bindings,
        mangler: &mut LinearMangler,
        fuel: usize,
    ) -> (r: Result<UnrolledExpr, ParseErr>)
        requires
            old(mangler).idx >= MANGLER_SEED,
            *expr == Expr::App(*f, *es),
        ensures
            final(bs)@ == old(bs)@,
            final(mangler).idx >= old(mangler).idx,
            match r {
                Ok(u) => rel_ok(self.fns@, old(bs)@, old(mangler).idx as int, fuel as nat, *expr, u)
                    && can_ok(self.fns@, old(bs)@, old(mangler).idx as int, fuel as nat, *expr)
                    && final(mangler).idx as int == old(mangler).idx + ids_of(
                    self.fns@,
                    fuel as nat,
                    *expr,
                ),
                Err(pe) => rel_err(
                    self.fns@,
                    old(bs)@,
                    old(mangler).idx as int,
                    fuel as nat,
                    *expr,
                    pe,
                ) && !can_ok(self.fns@, old(bs)@, old(mangler).idx as int, fuel as nat, *expr),
            },
        decreases fuel, *expr, 0int,
    {
        let ghost fns0 = self.fns@;
        let ghost bs0 = bs@;
        let ghost c0 = mangler.idx as int;
        let ghost fl = fuel as nat;

        let idx = match find_fn(&self.fns, f) {
            Some(i) => i,
            None => {
                return Err(ParseErr::UndefinedFunction(f.clone()));
            },
        };
        let params_len = self.fns[idx].1.0.len();
        if params_len != es.len() {
            return Err(ParseErr::ArityMismatch(params_len, es.len()));
        }
        let n = es.len();

        let mut us: Vec<UnrolledExpr> = Vec::new();
        let mut i: usize = 0;
        proof {
            assert(es@.take(0) =~= Seq::<Expr>::empty());
        }
        while i < n
            invariant
                bs@ == bs0,
                mangler.idx >= MANGLER_SEED,
                i <= n,
                us@.len() == i,
                mangler.idx as int == c0 + ids_of_list(fns0, fl, es@.take(i as int)),
                rel_ok_args(fns0, bs0, c0, fl, es@.take(i as int), us@),
                can_ok_list(fns0, bs0, c0, fl, es@.take(i as int)),
            decreases n - i,
        {
            proof {
                assert(decreases_to!(*expr => (*expr)->App_1));
                assert((*expr)->App_1 == *es);
                assert(decreases_to!(*es => es@));
                assert(decreases_to!(es@ => es@[i as int]));
                assert(decreases_to!(*expr => es@[i as int]));
            }
            match self.expand_mangle_fns(&es[i], bs, mangler, fuel) {
                Ok(u) => {
                    let ghost usprev = us@;
                    us.push(u);
                    proof {
                        assert(es@.take(i as int + 1).drop_last() =~= es@.take(i as int));
                        assert(us@.drop_last() =~= usprev);
                        assert(rel_ok_args(fns0, bs0, c0, fl, es@.take(i as int + 1), us@));
                        assert(can_ok_list(fns0, bs0, c0, fl, es@.take(i as int + 1)));
                    }
                    i = i + 1;
                },
                Err(pe) => {
                    proof {
                        assert(es@.take(i as int + 1).drop_last() =~= es@.take(i as int));
                        assert(rel_err_list(fns0, bs0, c0, fl, es@.take(i as int + 1), pe));
                        lemma_err_list_extend(fns0, bs0, c0, fl, es@, pe, i as int + 1);
                        if can_ok_list(fns0, bs0, c0, fl, es@) {
                            lemma_can_ok_list_index(fns0, bs0, c0, fl, es@, i as int);
                            assert(false);
                        }
                        assert(rel_err(fns0, bs0, c0, fl, *expr, pe));
                        assert(!can_ok(fns0, bs0, c0, fl, *expr));
                    }
                    return Err(pe);
                },
            }
        }
        let ghost c1 = mangler.idx as int;
        let ghost us0 = us@;
        proof {
            assert(es@.take(n as int) =~= es@);
            assert(c1 == c0 + ids_of_list(fns0, fl, es@));
        }

        if ((i32::MAX - mangler.idx) as usize) < n {
            proof {
                assert(rel_err(fns0, bs0, c0, fl, *expr, ParseErr::IdsExhausted));
                assert(!can_ok(fns0, bs0, c0, fl, *expr));
            }
            return Err(ParseErr::IdsExhausted);
        }
        if fuel == 0 {
            proof {
                assert(rel_err(fns0, bs0, c0, fl, *expr, ParseErr::RecursionLimit));
                assert(!can_ok(fns0, bs0, c0, fl, *expr));
            }
            return Err(ParseErr::RecursionLimit);
        }

        let mut ids: Vec<VarId> = Vec::new();
        let mut k: usize = 0;
        while k < n
            invariant
                k <= n,
                ids@.len() == k,
                mangler.idx as int == c1 + k,
                c1 + n <= i32::MAX,
                forall|j: int| #![all_triggers] 0 <= j < k ==> ids@[j] as int == c1 + 1 + j,
            decreases n - k,
        {
            let id = mangler.next();
            ids.push(id);
            k = k + 1;
        }

        let len0 = bs.len();
        let mut k2: usize = 0;
        while k2 < n
            invariant
                k2 <= n,
                bs@.len() == len0 + k2,
                bs@.take(len0 as int) == bs0,
                forall|j: int|
                    len0 <= j < len0 + k2 ==> #[trigger] bs@[j] == (
                        fns0[idx as int].1.0@[j - len0],
                        ids@[j - len0],
                    ),
            decreases n - k2,
        {
            let name = self.fns[idx].1.0[k2].clone();
            bs.push((name, ids[k2]));
            k2 = k2 + 1;
        }
        proof {
            let ghost target = bs0 + param_bindings(fns0[idx as int].1.0@, c1);
            assert forall|kk: int| 0 <= kk < bs@.len() implies bs@[kk] == target[kk] by {
                if kk >= len0 {
                    assert(bs@[kk] == (fns0[idx as int].1.0@[kk - len0], ids@[kk - len0]));
                    assert(ids@[kk - len0] as int == c1 + 1 + (kk - len0));
                } else {
                    assert(bs@.take(len0 as int)[kk] == bs@[kk]);
                }
            }
            assert(bs@ =~= bs0 + param_bindings(fns0[idx as int].1.0@, c1));
        }

        let rbody = self.expand_mangle_fns(&self.fns[idx].1.1, bs, mangler, fuel - 1);
        bs.truncate(len0);
        proof {
            assert(bs@ =~= bs0);
        }
        match rbody {
            Ok(ub) => {
                let ghost gub = ub;
                let mut bnds: Vec<(VarId, UnrolledExpr)> = Vec::new();
                let mut k3: usize = 0;
                proof {
                    assert(us0.skip(0) =~= us0);
                }
                while k3 < n
                    invariant
                        k3 <= n,
                        us@ == us0.skip(k3 as int),
                        us@.len() == n - k3,
                        bnds@.len() == k3,
                        forall|j: int| #![all_triggers] 0 <= j < k3 ==> bnds@[j] == (
                            ids@[j],
                            us0[j],
                        ),
                    decreases n - k3,
                {
                    let u0 = us.remove(0);
                    proof {
                        assert(us0.skip(k3 as int)[0] == us0[k3 as int]);
                    }
                    bnds.push((ids[k3], u0));
                    proof {
                        assert(us@ =~= us0.skip(k3 as int + 1));
                    }
                    k3 = k3 + 1;
                }
                let mut ubodies: Vec<UnrolledExpr> = Vec::new();
                ubodies.push(ub);
                let r = UnrolledExpr::Let(bnds, ubodies);
                proof {
                    assert forall|j: int| #![all_triggers] 0 <= j < bnds@.len() implies bnds@[j].1
                        == us0[j] && bnds@[j].0 as int == c1 + 1 + j by {
                        assert(bnds@[j] == (ids@[j], us0[j]));
                        assert(ids@[j] as int == c1 + 1 + j);
                    }
                    lemma_args_to_app_binds(fns0, bs0, c0, fl, es@, us0, bnds@, c1);
                    assert(ubodies@.len() == 1 && ubodies@[0] == gub);
                    assert(rel_ok(fns0, bs0, c0, fl, *expr, r));
                    assert(can_ok(fns0, bs0, c0, fl, *expr));
                }
                Ok(r)
            },
            Err(pe) => {
                proof {
                    assert(rel_err(fns0, bs0, c0, fl, *expr, pe));
                    assert(!can_ok(fns0, bs0, c0, fl, *expr));
                }
                Err(pe)
            },
        }
    }

    /// Expand a `let`: fresh ids for the bound names, right-hand sides in
    /// the outer environment, bodies under the extended environment.
    #[verifier::loop_isolation(false)]
    fn expand_let(
        &self,
        expr: &Expr,
        binds: &Vec<(Symbol, Expr)>,
        bodies: &Vec<Expr>,
        bs: &mut Bindings,
        mangler: &mut LinearMangler,
        fuel: usize,
    ) -> (r: Result<UnrolledExpr, ParseErr>)
        requires
            old(mangler).idx >= MANGLER_SEED,
            *expr == Expr::Let(*binds, *bodies),
        ensures
            final(bs)@ == old(bs)@,
            final(mangler).idx >= old(mangler).idx,
            match r {
                Ok(u) => rel_ok(self.fns@, old(bs)@, old(mangler).idx as int, fuel as nat, *expr, u)
                    && can_ok(self.fns@, old(bs)@, old(mangler).idx as int, fuel as nat, *expr)
                    && final(mangler).idx as int == old(mangler).idx + ids_of(
                    self.fns@,
                    fuel as nat,
                    *expr,
                ),
                Err(pe) => rel_err(
                    self.fns@,
                    old(bs)@,
                    old(mangler).idx as int,
                    fuel as nat,
                    *expr,
                    pe,
                ) && !can_ok(self.fns@, old(bs)@, old(mangler).idx as int, fuel as nat, *expr),
            },
        decreases fuel, *expr, 0int,
    {
        let ghost fns0 = self.fns@;
        let ghost bs0 = bs@;
        let ghost c0 = mangler.idx as int;
        let ghost fl = fuel as nat;

        let n = binds.len();
        if ((i32::MAX - mangler.idx) as usize) < n {
            proof {
                assert(rel_err(fns0, bs0, c0, fl, *expr, ParseErr::IdsExhausted));
                assert(!can_ok(fns0, bs0, c0, fl, *expr));
            }
            return Err(ParseErr::IdsExhausted);
        }

        let mut ids: Vec<VarId> = Vec::new();
        let mut k: usize = 0;
        while k < n
            invariant
                k <= n,
                ids@.len() == k,
                mangler.idx as int == c0 + k,
                c0 + n <= i32::MAX,
                forall|j: int| #![all_triggers] 0 <= j < k ==> ids@[j] as int == c0 + 1 + j,
            decreases n - k,
        {
            let id = mangler.next();
            ids.push(id);
            k = k + 1;
        }

        let mut ubinds: Vec<(VarId, UnrolledExpr)> = Vec::new();
        let mut i: usize = 0;
        proof {
            assert(binds@.take(0) =~= Seq::<(Symbol, Expr)>::empty());
        }
        while i < n
            invariant
                bs@ == bs0,
                i <= n,
                ubinds@.len() == i,
                mangler.idx as int == c0 + n + ids_of_pairs(fns0, fl, binds@.take(i as int)),
                mangler.idx >= MANGLER_SEED,
                rel_ok_lbinds(fns0, bs0, c0 + n, fl, binds@.take(i as int), ubinds@, c0),
                can_ok_pairs(fns0, bs0, c0 + n, fl, binds@.take(i as int)),
            decreases n - i,
        {
            proof {
                assert(decreases_to!(*expr => (*expr)->Let_0));
                assert((*expr)->Let_0 == *binds);
                assert(decreases_to!(*binds => binds@));
                assert(decreases_to!(binds@ => binds@[i as int]));
                assert(decreases_to!(binds@[i as int] => binds@[i as int].1));
                assert(decreases_to!(*expr => binds@[i as int].1));
            }
            match self.expand_mangle_fns(&binds[i].1, bs, mangler, fuel) {
                Ok(u) => {
                    let ghost ubprev = ubinds@;
                    ubinds.push((ids[i], u));
                    proof {
                        assert(binds@.take(i as int + 1).drop_last() =~= binds@.take(i as int));
                        assert(ubinds@.drop_last() =~= ubprev);
                        assert(ids@[i as int] as int == c0 + 1 + i);
                        assert(rel_ok_lbinds(
                            fns0,
                            bs0,
                            c0 + n,
                            fl,
                            binds@.take(i as int + 1),
                            ubinds@,
                            c0,
                        ));
                        assert(can_ok_pairs(fns0, bs0, c0 + n, fl, binds@.take(i as int + 1)));
                    }
                    i = i + 1;
                },
                Err(pe) => {
                    proof {
                        assert(binds@.take(i as int + 1).drop_last() =~= binds@.take(i as int));
                        assert(rel_err_pairs(fns0, bs0, c0 + n, fl, binds@.take(i as int + 1), pe));
                        lemma_err_pairs_extend(fns0, bs0, c0 + n, fl, binds@, pe, i as int + 1);
                        if can_ok_pairs(fns0, bs0, c0 + n, fl, binds@) {
                            lemma_can_ok_pairs_index(fns0, bs0, c0 + n, fl, binds@, i as int);
                            assert(false);
                        }
                        assert(rel_err(fns0, bs0, c0, fl, *expr, pe));
                        assert(!can_ok(fns0, bs0, c0, fl, *expr));
                    }
                    return Err(pe);
                },
            }
        }
        let ghost c1 = mangler.idx as int;
        let ghost ubinds0 = ubinds@;
        proof {
            assert(binds@.take(n as int) =~= binds@);
            assert(c1 == c0 + n + ids_of_pairs(fns0, fl, binds@));
        }

        let len0 = bs.len();
        let mut k2: usize = 0;
        while k2 < n
            invariant
                k2 <= n,
                bs@.len() == len0 + k2,
                bs@.take(len0 as int) == bs0,
                forall|j: int|
                    len0 <= j < len0 + k2 ==> #[trigger] bs@[j] == (
                        binds@[j - len0].0,
                        ids@[j - len0],
                    ),
            decreases n - k2,
        {
            let name = binds[k2].0.clone();
            bs.push((name, ids[k2]));
            k2 = k2 + 1;
        }
        proof {
            let ghost target = bs0 + let_bindings(binds@, c0);
            assert forall|kk: int| 0 <= kk < bs@.len() implies bs@[kk] == target[kk] by {
                if kk >= len0 {
                    assert(bs@[kk] == (binds@[kk - len0].0, ids@[kk - len0]));
                    assert(ids@[kk - len0] as int == c0 + 1 + (kk - len0));
                } else {
                    assert(bs@.take(len0 as int)[kk] == bs@[kk]);
                }
            }
            assert(bs@ =~= bs0 + let_bindings(binds@, c0));
        }

        let m = bodies.len();
        let mut ubodies: Vec<UnrolledExpr> = Vec::new();
        let mut j: usize = 0;
        proof {
            assert(bodies@.take(0) =~= Seq::<Expr>::empty());
        }
        while j < m
            invariant
                bs@ == bs0 + let_bindings(binds@, c0),
                j <= m,
                ubodies@.len() == j,
                mangler.idx as int == c1 + ids_of_list(fns0, fl, bodies@.take(j as int)),
                mangler.idx >= MANGLER_SEED,
                rel_ok_args(
                    fns0,
                    bs0 + let_bindings(binds@, c0),
                    c1,
                    fl,
                    bodies@.take(j as int),
                    ubodies@,
                ),
                can_ok_list(fns0, bs0 + let_bindings(binds@, c0), c1, fl, bodies@.take(j as int)),
            decreases m - j,
        {
            proof {
                assert(decreases_to!(*expr => (*expr)->Let_1));
                assert((*expr)->Let_1 == *bodies);
                assert(decreases_to!(*bodies => bodies@));
                assert(decreases_to!(bodies@ => bodies@[j as int]));
                assert(decreases_to!(*expr => bodies@[j as int]));
            }
            match self.expand_mangle_fns(&bodies[j], bs, mangler, fuel) {
                Ok(u) => {
                    let ghost ubodprev = ubodies@;
                    ubodies.push(u);
                    proof {
                        assert(bodies@.take(j as int + 1).drop_last() =~= bodies@.take(j as int));
                        assert(ubodies@.drop_last() =~= ubodprev);
                        assert(rel_ok_args(
                            fns0,
                            bs0 + let_bindings(binds@, c0),
                            c1,
                            fl,
                            bodies@.take(j as int + 1),
                            ubodies@,
                        ));
                        assert(can_ok_list(
                            fns0,
                            bs0 + let_bindings(binds@, c0),
                            c1,
                            fl,
                            bodies@.take(j as int + 1),
                        ));
                    }
                    j = j + 1;
                },
                Err(pe) => {
                    bs.truncate(len0);
                    proof {
                        assert(bs@ =~= bs0);
                        assert(bodies@.take(j as int + 1).drop_last() =~= bodies@.take(j as int));
                        assert(rel_err_list(
                            fns0,
                            bs0 + let_bindings(binds@, c0),
                            c1,
                            fl,
                            bodies@.take(j as int + 1),
                            pe,
                        ));
                        lemma_err_list_extend(
                            fns0,
                            bs0 + let_bindings(binds@, c0),
                            c1,
                            fl,
                            bodies@,
                            pe,
                            j as int + 1,
                        );
                        if can_ok_list(fns0, bs0 + let_bindings(binds@, c0), c1, fl, bodies@) {
                            lemma_can_ok_list_index(
                                fns0,
                                bs0 + let_bindings(binds@, c0),
                                c1,
                                fl,
                                bodies@,
                                j as int,
                            );
                            assert(false);
                        }
                        assert(rel_err(fns0, bs0, c0, fl, *expr, pe));
                        assert(!can_ok(fns0, bs0, c0, fl, *expr));
                    }
                    return Err(pe);
                },
            }
        }
        bs.truncate(len0);
        proof {
            assert(bs@ =~= bs0);
            assert(bodies@.take(m as int) =~= bodies@);
        }
        let r = UnrolledExpr::Let(ubinds, ubodies);
        proof {
            assert(rel_ok(fns0, bs0, c0, fl, *expr, r));
            assert(can_ok(fns0, bs0, c0, fl, *expr));
        }
        Ok(r)
    }
}


/// Every id bound by a `let` node of the expanded tree, in traversal
/// order. Expansion introduces a binder for each surface `let` binding
/// and each formal parameter of an inlined application; hygiene is the
/// statement that no id in this sequence repeats.
pub open spec fn binder_ids(u: UnrolledExpr) -> Seq<int>
    decreases u,
{
    match u {
        UnrolledExpr::Value(_v) => Seq::empty(),
        UnrolledExpr::Var(_v) => Seq::empty(),
        UnrolledExpr::SetVar(_w, u1) => binder_ids(*u1),
        UnrolledExpr::BuiltIn(bx) => binder_ids_builtin(*bx),
        UnrolledExpr::Let(bnds, bodies) => binder_ids_pairs(bnds@) + binder_ids_list(bodies@),
    }
}

pub open spec fn binder_ids_list(us: Seq<UnrolledExpr>) -> Seq<int>
    decreases us,
{
    if us.len() == 0 {
        Seq::empty()
    } else {
        binder_ids_list(us.drop_last()) + binder_ids(us.last())
    }
}

pub open spec fn binder_ids_pairs(bnds: Seq<(VarId, UnrolledExpr)>) -> Seq<int>
    decreases bnds,
{
    if bnds.len() == 0 {
        Seq::empty()
    } else {
        binder_ids_pairs(bnds.drop_last()) + seq![bnds.last().0 as int] + binder_ids(
            bnds.last().1,
        )
    }
}

pub open spec fn binder_ids_builtin(bx: ExpandedBuiltIn<UnrolledExpr>) -> Seq<int>
    decreases bx,
{
    match bx {
        ExpandedBuiltIn::Add(u1, u2) => binder_ids(u1) + binder_ids(u2),
        ExpandedBuiltIn::Sub(u1, u2) => binder_ids(u1) + binder_ids(u2),
        ExpandedBuiltIn::Mul(u1, u2) => binder_ids(u1) + binder_ids(u2),
        ExpandedBuiltIn::Div(u1, u2) => binder_ids(u1) + binder_ids(u2),
        ExpandedBuiltIn::Rem(u1, u2) => binder_ids(u1) + binder_ids(u2),
        ExpandedBuiltIn::And(u1, u2) => binder_ids(u1) + binder_ids(u2),
        ExpandedBuiltIn::Or(u1, u2) => binder_ids(u1) + binder_ids(u2),
        ExpandedBuiltIn::Xor(u1, u2) => binder_ids(u1) + binder_ids(u2),
        ExpandedBuiltIn::Eql(u1, u2) => binder_ids(u1) + binder_ids(u2),
        ExpandedBuiltIn::Lt(u1, u2) => binder_ids(u1) + binder_ids(u2),
        ExpandedBuiltIn::Gt(u1, u2) => binder_ids(u1) + binder_ids(u2),
        ExpandedBuiltIn::Shl(u1, u2) => binder_ids(u1) + binder_ids(u2),
        ExpandedBuiltIn::Shr(u1, u2) => binder_ids(u1) + binder_ids(u2),
        ExpandedBuiltIn::Vref(u1, u2) => binder_ids(u1) + binder_ids(u2),
        ExpandedBuiltIn::Vappend(u1, u2) => binder_ids(u1) + binder_ids(u2),
        ExpandedBuiltIn::Vpush(u1, u2) => binder_ids(u1) + binder_ids(u2),
        ExpandedBuiltIn::Vcons(u1, u2) => binder_ids(u1) + binder_ids(u2),
        ExpandedBuiltIn::Bref(u1, u2) => binder_ids(u1) + binder_ids(u2),
        ExpandedBuiltIn::Bappend(u1, u2) => binder_ids(u1) + binder_ids(u2),
        ExpandedBuiltIn::Bpush(u1, u2) => binder_ids(u1) + binder_ids(u2),
        ExpandedBuiltIn::Bcons(u1, u2) => binder_ids(u1) + binder_ids(u2),
        ExpandedBuiltIn::Not(u1) => binder_ids(u1),
        ExpandedBuiltIn::ItoB(u1) => binder_ids(u1),
        ExpandedBuiltIn::BtoI(u1) => binder_ids(u1),
        ExpandedBuiltIn::TypeQ(u1) => binder_ids(u1),
        ExpandedBuiltIn::Dup(u1) => binder_ids(u1),
        ExpandedBuiltIn::Vlen(u1) => binder_ids(u1),
        ExpandedBuiltIn::Blen(u1) => binder_ids(u1),
        ExpandedBuiltIn::Hash(u1) => binder_ids(u1),
        ExpandedBuiltIn::Vslice(u1, u2, u3) => binder_ids(u1) + binder_ids(u2) + binder_ids(u3),
        ExpandedBuiltIn::Vset(u1, u2, u3) => binder_ids(u1) + binder_ids(u2) + binder_ids(u3),
        ExpandedBuiltIn::Bslice(u1, u2, u3) => binder_ids(u1) + binder_ids(u2) + binder_ids(u3),
        ExpandedBuiltIn::Bset(u1, u2, u3) => binder_ids(u1) + binder_ids(u2) + binder_ids(u3),
        ExpandedBuiltIn::Vempty => Seq::empty(),
        ExpandedBuiltIn::Bempty => Seq::empty(),
        ExpandedBuiltIn::Jmp(_n) => Seq::empty(),
        ExpandedBuiltIn::Bez(_n) => Seq::empty(),
        ExpandedBuiltIn::Bnz(_n) => Seq::empty(),
        ExpandedBuiltIn::Store(_n) => Seq::empty(),
        ExpandedBuiltIn::Load(_n) => Seq::empty(),
    }
}

/// Membership in a concatenation splits over its parts.
proof fn lemma_contains_append(a: Seq<int>, b: Seq<int>, x: int)
    ensures
        (a + b).contains(x) <==> a.contains(x) || b.contains(x),
{
    if a.contains(x) {
        let i = choose|i: int| 0 <= i < a.len() && a[i] == x;
        assert((a + b)[i] == x);
    }
    if b.contains(x) {
        let i = choose|i: int| 0 <= i < b.len() && b[i] == x;
        assert((a + b)[a.len() + i] == x);
    }
    if (a + b).contains(x) {
        let i = choose|i: int| 0 <= i < (a + b).len() && (a + b)[i] == x;
        if i < a.len() {
            assert(a[i] == x);
        } else {
            assert(b[i - a.len()] == x);
        }
    }
}

/// Concatenating sequences without repetitions and without common
/// elements yields a sequence without repetitions.
proof fn lemma_nodup_append(a: Seq<int>, b: Seq<int>)
    requires
        a.no_duplicates(),
        b.no_duplicates(),
        forall|x: int| a.contains(x) ==> !b.contains(x),
    ensures
        (a + b).no_duplicates(),
{
    assert forall|i: int, j: int| 0 <= i < j < (a + b).len() implies (a + b)[i] != (a + b)[j] by {
        if j < a.len() {
            assert((a + b)[i] == a[i] && (a + b)[j] == a[j]);
        } else if i >= a.len() {
            assert((a + b)[i] == b[i - a.len()] && (a + b)[j] == b[j - a.len()]);
        } else {
            assert((a + b)[i] == a[i] && (a + b)[j] == b[j - a.len()]);
            if a[i] == b[j - a.len()] {
                assert(a.contains(a[i]));
                assert(b.contains(b[j - a.len()]));
            }
        }
    }
}

/// Hygiene for one expanded builtin: operand expansions carry disjoint,
/// consecutive id ranges.
proof fn lemma_hygiene_builtin(
    fns: Seq<Defn>,
    bs: Seq<(Symbol, VarId)>,
    ctr: int,
    fuel: nat,
    b: BuiltIn,
    u: UnrolledExpr,
)
    requires
        rel_ok_builtin(fns, bs, ctr, fuel, b, u),
    ensures
        forall|x: int|
            binder_ids(u).contains(x) ==> ctr < x <= ctr + ids_of_builtin(fns, fuel, b),
        binder_ids(u).no_duplicates(),
    decreases fuel, b, 0int,
{
        reveal_with_fuel(binder_ids, 3);
        reveal_with_fuel(binder_ids_builtin, 3);
        reveal_with_fuel(binder_ids_list, 3);
        reveal_with_fuel(binder_ids_pairs, 3);
    match b {
        BuiltIn::Add(e1, e2) => {
            match u {
                UnrolledExpr::BuiltIn(bx) => match *bx {
                    ExpandedBuiltIn::Add(u1, u2) => {
                        lemma_hygiene(fns, bs, ctr, fuel, e1, u1);
                        lemma_hygiene(fns, bs, ctr + ids_of(fns, fuel, e1), fuel, e2, u2);
                        assert forall|x: int| binder_ids(u1).contains(x) implies !binder_ids(
                            u2,
                        ).contains(x) by {
                        }
                        lemma_nodup_append(binder_ids(u1), binder_ids(u2));
                        assert(binder_ids(u) == binder_ids(u1) + binder_ids(u2));
                        assert forall|x: int|
                            binder_ids(u).contains(x) implies ctr < x <= ctr + ids_of_builtin(
                            fns,
                            fuel,
                            b,
                        ) by {
                            lemma_contains_append(binder_ids(u1), binder_ids(u2), x);
                        }
                    },
                    _ => {
                    },
                },
                _ => {
                },
            }
        },
        BuiltIn::Sub(e1, e2) => {
            match u {
                UnrolledExpr::BuiltIn(bx) => match *bx {
                    ExpandedBuiltIn::Sub(u1, u2) => {
                        lemma_hygiene(fns, bs, ctr, fuel, e1, u1);
                        lemma_hygiene(fns, bs, ctr + ids_of(fns, fuel, e1), fuel, e2, u2);
                        assert forall|x: int| binder_ids(u1).contains(x) implies !binder_ids(
                            u2,
                        ).contains(x) by {
                        }
                        lemma_nodup_append(binder_ids(u1), binder_ids(u2));
                        assert(binder_ids(u) == binder_ids(u1) + binder_ids(u2));
                        assert forall|x: int|
                            binder_ids(u).contains(x) implies ctr < x <= ctr + ids_of_builtin(
                            fns,
                            fuel,
                            b,
                        ) by {
                            lemma_contains_append(binder_ids(u1), binder_ids(u2), x);
                        }
                    },
                    _ => {
                    },
                },
                _ => {
                },
            }
        },
        BuiltIn::Mul(e1, e2) => {
            match u {
                UnrolledExpr::BuiltIn(bx) => match *bx {
                    ExpandedBuiltIn::Mul(u1, u2) => {
                        lemma_hygiene(fns, bs, ctr, fuel, e1, u1);
                        lemma_hygiene(fns, bs, ctr + ids_of(fns, fuel, e1), fuel, e2, u2);
                        assert forall|x: int| binder_ids(u1).contains(x) implies !binder_ids(
                            u2,
                        ).contains(x) by {
                        }
                        lemma_nodup_append(binder_ids(u1), binder_ids(u2));
                        assert(binder_ids(u) == binder_ids(u1) + binder_ids(u2));
                        assert forall|x: int|
                            binder_ids(u).contains(x) implies ctr < x <= ctr + ids_of_builtin(
                            fns,
                            fuel,
                            b,
                        ) by {
                            lemma_contains_append(binder_ids(u1), binder_ids(u2), x);
                        }
                    },
                    _ => {
                    },
                },
                _ => {
                },
            }
        },
        BuiltIn::Div(e1, e2) => {
            match u {
                UnrolledExpr::BuiltIn(bx) => match *bx {
                    ExpandedBuiltIn::Div(u1, u2) => {
                        lemma_hygiene(fns, bs, ctr, fuel, e1, u1);
                        lemma_hygiene(fns, bs, ctr + ids_of(fns, fuel, e1), fuel, e2, u2);
                        assert forall|x: int| binder_ids(u1).contains(x) implies !binder_ids(
                            u2,
                        ).contains(x) by {
                        }
                        lemma_nodup_append(binder_ids(u1), binder_ids(u2));
                        assert(binder_ids(u) == binder_ids(u1) + binder_ids(u2));
                        assert forall|x: int|
                            binder_ids(u).contains(x) implies ctr < x <= ctr + ids_of_builtin(
                            fns,
                            fuel,
                            b,
                        ) by {
                            lemma_contains_append(binder_ids(u1), binder_ids(u2), x);
                        }
                    },
                    _ => {
                    },
                },
                _ => {
                },
            }
        },
        BuiltIn::Rem(e1, e2) => {
            match u {
                UnrolledExpr::BuiltIn(bx) => match *bx {
                    ExpandedBuiltIn::Rem(u1, u2) => {
                        lemma_hygiene(fns, bs, ctr, fuel, e1, u1);
                        lemma_hygiene(fns, bs, ctr + ids_of(fns, fuel, e1), fuel, e2, u2);
                        assert forall|x: int| binder_ids(u1).contains(x) implies !binder_ids(
                            u2,
                        ).contains(x) by {
                        }
                        lemma_nodup_append(binder_ids(u1), binder_ids(u2));
                        assert(binder_ids(u) == binder_ids(u1) + binder_ids(u2));
                        assert forall|x: int|
                            binder_ids(u).contains(x) implies ctr < x <= ctr + ids_of_builtin(
                            fns,
                            fuel,
                            b,
                        ) by {
                            lemma_contains_append(binder_ids(u1), binder_ids(u2), x);
                        }
                    },
                    _ => {
                    },
                },
                _ => {
                },
            }
        },
        BuiltIn::And(e1, e2) => {
            match u {
                UnrolledExpr::BuiltIn(bx) => match *bx {
                    ExpandedBuiltIn::And(u1, u2) => {
                        lemma_hygiene(fns, bs, ctr, fuel, e1, u1);
                        lemma_hygiene(fns, bs, ctr + ids_of(fns, fuel, e1), fuel, e2, u2);
                        assert forall|x: int| binder_ids(u1).contains(x) implies !binder_ids(
                            u2,
                        ).contains(x) by {
                        }
                        lemma_nodup_append(binder_ids(u1), binder_ids(u2));
                        assert(binder_ids(u) == binder_ids(u1) + binder_ids(u2));
                        assert forall|x: int|
                            binder_ids(u).contains(x) implies ctr < x <= ctr + ids_of_builtin(
                            fns,
                            fuel,
                            b,
                        ) by {
                            lemma_contains_append(binder_ids(u1), binder_ids(u2), x);
                        }
                    },
                    _ => {
                    },
                },
                _ => {
                },
            }
        },
        BuiltIn::Or(e1, e2) => {
            match u {
                UnrolledExpr::BuiltIn(bx) => match *bx {
                    ExpandedBuiltIn::Or(u1, u2) => {
                        lemma_hygiene(fns, bs, ctr, fuel, e1, u1);
                        lemma_hygiene(fns, bs, ctr + ids_of(fns, fuel, e1), fuel, e2, u2);
                        assert forall|x: int| binder_ids(u1).contains(x) implies !binder_ids(
                            u2,
                        ).contains(x) by {
                        }
                        lemma_nodup_append(binder_ids(u1), binder_ids(u2));
                        assert(binder_ids(u) == binder_ids(u1) + binder_ids(u2));
                        assert forall|x: int|
                            binder_ids(u).contains(x) implies ctr < x <= ctr + ids_of_builtin(
                            fns,
                            fuel,
                            b,
                        ) by {
                            lemma_contains_append(binder_ids(u1), binder_ids(u2), x);
                        }
                    },
                    _ => {
                    },
                },
                _ => {
                },
            }
        },
        BuiltIn::Xor(e1, e2) => {
            match u {
                UnrolledExpr::BuiltIn(bx) => match *bx {
                    ExpandedBuiltIn::Xor(u1, u2) => {
                        lemma_hygiene(fns, bs, ctr, fuel, e1, u1);
                        lemma_hygiene(fns, bs, ctr + ids_of(fns, fuel, e1), fuel, e2, u2);
                        assert forall|x: int| binder_ids(u1).contains(x) implies !binder_ids(
                            u2,
                        ).contains(x) by {
                        }
                        lemma_nodup_append(binder_ids(u1), binder_ids(u2));
                        assert(binder_ids(u) == binder_ids(u1) + binder_ids(u2));
                        assert forall|x: int|
                            binder_ids(u).contains(x) implies ctr < x <= ctr + ids_of_builtin(
                            fns,
                            fuel,
                            b,
                        ) by {
                            lemma_contains_append(binder_ids(u1), binder_ids(u2), x);
                        }
                    },
                    _ => {
                    },
                },
                _ => {
                },
            }
        },
        BuiltIn::Vpush(e1, e2) => {
            match u {
                UnrolledExpr::BuiltIn(bx) => match *bx {
                    ExpandedBuiltIn::Vpush(u1, u2) => {
                        lemma_hygiene(fns, bs, ctr, fuel, e1, u1);
                        lemma_hygiene(fns, bs, ctr + ids_of(fns, fuel, e1), fuel, e2, u2);
                        assert forall|x: int| binder_ids(u1).contains(x) implies !binder_ids(
                            u2,
                        ).contains(x) by {
                        }
                        lemma_nodup_append(binder_ids(u1), binder_ids(u2));
                        assert(binder_ids(u) == binder_ids(u1) + binder_ids(u2));
                        assert forall|x: int|
                            binder_ids(u).contains(x) implies ctr < x <= ctr + ids_of_builtin(
                            fns,
                            fuel,
                            b,
                        ) by {
                            lemma_contains_append(binder_ids(u1), binder_ids(u2), x);
                        }
                    },
                    _ => {
                    },
                },
                _ => {
                },
            }
        },
        BuiltIn::Vref(e1, e2) => {
            match u {
                UnrolledExpr::BuiltIn(bx) => match *bx {
                    ExpandedBuiltIn::Vref(u1, u2) => {
                        lemma_hygiene(fns, bs, ctr, fuel, e1, u1);
                        lemma_hygiene(fns, bs, ctr + ids_of(fns, fuel, e1), fuel, e2, u2);
                        assert forall|x: int| binder_ids(u1).contains(x) implies !binder_ids(
                            u2,
                        ).contains(x) by {
                        }
                        lemma_nodup_append(binder_ids(u1), binder_ids(u2));
                        assert(binder_ids(u) == binder_ids(u1) + binder_ids(u2));
                        assert forall|x: int|
                            binder_ids(u).contains(x) implies ctr < x <= ctr + ids_of_builtin(
                            fns,
                            fuel,
                            b,
                        ) by {
                            lemma_contains_append(binder_ids(u1), binder_ids(u2), x);
                        }
                    },
                    _ => {
                    },
                },
                _ => {
                },
            }
        },
        BuiltIn::Vappend(e1, e2) => {
            match u {
                UnrolledExpr::BuiltIn(bx) => match *bx {
                    ExpandedBuiltIn::Vappend(u1, u2) => {
                        lemma_hygiene(fns, bs, ctr, fuel, e1, u1);
                        lemma_hygiene(fns, bs, ctr + ids_of(fns, fuel, e1), fuel, e2, u2);
                        assert forall|x: int| binder_ids(u1).contains(x) implies !binder_ids(
                            u2,
                        ).contains(x) by {
                        }
                        lemma_nodup_append(binder_ids(u1), binder_ids(u2));
                        assert(binder_ids(u) == binder_ids(u1) + binder_ids(u2));
                        assert forall|x: int|
                            binder_ids(u).contains(x) implies ctr < x <= ctr + ids_of_builtin(
                            fns,
                            fuel,
                            b,
                        ) by {
                            lemma_contains_append(binder_ids(u1), binder_ids(u2), x);
                        }
                    },
                    _ => {
                    },
                },
                _ => {
                },
            }
        },
        BuiltIn::Not(e1) => {
            match u {
                UnrolledExpr::BuiltIn(bx) => match *bx {
                    ExpandedBuiltIn::Not(u1) => {
                        lemma_hygiene(fns, bs, ctr, fuel, e1, u1);
                    },
                    _ => {
                    },
                },
                _ => {
                },
            }
        },
        BuiltIn::Vlen(e1) => {
            match u {
                UnrolledExpr::BuiltIn(bx) => match *bx {
                    ExpandedBuiltIn::Vlen(u1) => {
                        lemma_hygiene(fns, bs, ctr, fuel, e1, u1);
                    },
                    _ => {
                    },
                },
                _ => {
                },
            }
        },
        BuiltIn::Hash(e1) => {
            match u {
                UnrolledExpr::BuiltIn(bx) => match *bx {
                    ExpandedBuiltIn::Hash(u1) => {
                        lemma_hygiene(fns, bs, ctr, fuel, e1, u1);
                    },
                    _ => {
                    },
                },
                _ => {
                },
            }
        },

        BuiltIn::Vempty => {
        },
        BuiltIn::Vslice(_e1, _e2, _e3) => {
        },
        BuiltIn::Load(_s) => {
        },
        BuiltIn::Store(_s) => {
        },
    }
}

/// Hygiene of the expansion engine, the heart of the mangler's contract:
/// the ids bound inside an expanded tree all lie strictly between the
/// counter the expansion started from and the counter it reached, and no
/// id is bound twice. Inlining can flatten arbitrarily many scopes into
/// one tree, yet no two bindings ever collide.
pub proof fn lemma_hygiene(
    fns: Seq<Defn>,
    bs: Seq<(Symbol, VarId)>,
    ctr: int,
    fuel: nat,
    e: Expr,
    u: UnrolledExpr,
)
    requires
        rel_ok(fns, bs, ctr, fuel, e, u),
    ensures
        forall|x: int|
            binder_ids(u).contains(x) ==> ctr < x <= ctr + ids_of(fns, fuel, e),
        binder_ids(u).no_duplicates(),
    decreases fuel, e, 1int,
{
        reveal_with_fuel(binder_ids, 3);
        reveal_with_fuel(binder_ids_builtin, 3);
        reveal_with_fuel(binder_ids_list, 3);
        reveal_with_fuel(binder_ids_pairs, 3);
    match e {
        Expr::Value(_v) => {
        },
        Expr::Var(_x) => {
        },
        Expr::SetVar(_x, e1) => {
            match u {
                UnrolledExpr::SetVar(_w, u1) => {
                    lemma_hygiene(fns, bs, ctr, fuel, *e1, *u1);
                },
                _ => {
                },
            }
        },
        Expr::BuiltIn(b) => {
            lemma_hygiene_builtin(fns, bs, ctr, fuel, *b, u);
        },
        Expr::App(f, es) => {
            match u {
                UnrolledExpr::Let(bnds, bodies1) => {
                    if lookup_fn(fns, f@) is Some && fuel > 0 {
                        let fi = lookup_fn(fns, f@)->Some_0;
                        let c1 = ctr + ids_of_list(fns, fuel, es@);
                        lemma_hygiene_app_binds(fns, bs, ctr, fuel, es@, bnds@, c1);
                        assert(bodies1@.drop_last() =~= Seq::<UnrolledExpr>::empty());
                        assert(binder_ids_list(bodies1@.drop_last()) =~= Seq::<int>::empty());
                        assert(bodies1@.last() == bodies1@[0]);
                        assert(binder_ids_list(bodies1@) =~= binder_ids(bodies1@[0]));
                        lemma_hygiene(
                            fns,
                            bs + param_bindings(fi.0@, c1),
                            c1 + es@.len(),
                            (fuel - 1) as nat,
                            fi.1,
                            bodies1@[0],
                        );
                        assert forall|x: int| binder_ids_pairs(bnds@).contains(x) implies !binder_ids(
                            bodies1@[0],
                        ).contains(x) by {
                        }
                        lemma_nodup_append(binder_ids_pairs(bnds@), binder_ids_list(bodies1@));
                        assert forall|x: int|
                            binder_ids(u).contains(x) implies ctr < x <= ctr + ids_of(
                            fns,
                            fuel,
                            e,
                        ) by {
                            lemma_contains_append(
                                binder_ids_pairs(bnds@),
                                binder_ids_list(bodies1@),
                                x,
                            );
                        }
                    }
                },
                _ => {
                },
            }
        },
        Expr::Let(binds, bodies) => {
            match u {
                UnrolledExpr::Let(bnds, ubodies) => {
                    let n = binds@.len() as int;
                    lemma_hygiene_lbinds(fns, bs, ctr + n, fuel, binds@, bnds@, ctr);
                    lemma_hygiene_list(
                        fns,
                        bs + let_bindings(binds@, ctr),
                        ctr + n + ids_of_pairs(fns, fuel, binds@),
                        fuel,
                        bodies@,
                        ubodies@,
                    );
                    assert forall|x: int| binder_ids_pairs(bnds@).contains(x) implies !binder_ids_list(
                        ubodies@,
                    ).contains(x) by {
                    }
                    lemma_nodup_append(binder_ids_pairs(bnds@), binder_ids_list(ubodies@));
                    assert forall|x: int|
                        binder_ids(u).contains(x) implies ctr < x <= ctr + ids_of(
                        fns,
                        fuel,
                        e,
                    ) by {
                        lemma_contains_append(binder_ids_pairs(bnds@), binder_ids_list(ubodies@), x);
                    }
                },
                _ => {
                },
            }
        },
    }
}

/// Hygiene for a list of expansions chained left to right.
proof fn lemma_hygiene_list(
    fns: Seq<Defn>,
    bs: Seq<(Symbol, VarId)>,
    ctr: int,
    fuel: nat,
    es: Seq<Expr>,
    us: Seq<UnrolledExpr>,
)
    requires
        rel_ok_args(fns, bs, ctr, fuel, es, us),
    ensures
        forall|x: int|
            binder_ids_list(us).contains(x) ==> ctr < x <= ctr + ids_of_list(fns, fuel, es),
        binder_ids_list(us).no_duplicates(),
    decreases fuel, es, 0int,
{
        reveal_with_fuel(binder_ids, 3);
        reveal_with_fuel(binder_ids_builtin, 3);
        reveal_with_fuel(binder_ids_list, 3);
        reveal_with_fuel(binder_ids_pairs, 3);
    if es.len() == 0 {
        assert(binder_ids_list(us) =~= Seq::<int>::empty());
    } else {
        lemma_hygiene_list(fns, bs, ctr, fuel, es.drop_last(), us.drop_last());
        lemma_hygiene(
            fns,
            bs,
            ctr + ids_of_list(fns, fuel, es.drop_last()),
            fuel,
            es.last(),
            us.last(),
        );
        assert forall|x: int| binder_ids_list(us.drop_last()).contains(x) implies !binder_ids(
            us.last(),
        ).contains(x) by {
        }
        lemma_nodup_append(binder_ids_list(us.drop_last()), binder_ids(us.last()));
        assert forall|x: int|
            binder_ids_list(us).contains(x) implies ctr < x <= ctr + ids_of_list(
            fns,
            fuel,
            es,
        ) by {
            lemma_contains_append(binder_ids_list(us.drop_last()), binder_ids(us.last()), x);
        }
    }
}

/// Hygiene for the pairs of an application's `let` node: the fresh
/// parameter ids sit just past `base`, the argument expansions' own
/// binders sit below them, and none repeat.
proof fn lemma_hygiene_app_binds(
    fns: Seq<Defn>,
    bs: Seq<(Symbol, VarId)>,
    ctr: int,
    fuel: nat,
    es: Seq<Expr>,
    bnds: Seq<(VarId, UnrolledExpr)>,
    base: int,
)
    requires
        rel_ok_app_binds(fns, bs, ctr, fuel, es, bnds, base),
        base >= ctr + ids_of_list(fns, fuel, es),
    ensures
        forall|x: int|
            binder_ids_pairs(bnds).contains(x) ==> (ctr < x <= ctr + ids_of_list(fns, fuel, es))
                || (base < x <= base + es.len()),
        binder_ids_pairs(bnds).no_duplicates(),
    decreases fuel, es, 0int,
{
        reveal_with_fuel(binder_ids, 3);
        reveal_with_fuel(binder_ids_builtin, 3);
        reveal_with_fuel(binder_ids_list, 3);
        reveal_with_fuel(binder_ids_pairs, 3);
    if es.len() == 0 {
        assert(binder_ids_pairs(bnds) =~= Seq::<int>::empty());
    } else {
        lemma_ids_of_list_mono(fns, fuel, es);
        lemma_hygiene_app_binds(fns, bs, ctr, fuel, es.drop_last(), bnds.drop_last(), base);
        lemma_hygiene(
            fns,
            bs,
            ctr + ids_of_list(fns, fuel, es.drop_last()),
            fuel,
            es.last(),
            bnds.last().1,
        );
        let pre = binder_ids_pairs(bnds.drop_last());
        let own = seq![bnds.last().0 as int];
        let sub = binder_ids(bnds.last().1);
        assert(own.no_duplicates());
        assert forall|x: int| pre.contains(x) implies !own.contains(x) by {
            assert(own[0] == base + es.len());
        }
        lemma_nodup_append(pre, own);
        assert forall|x: int| (pre + own).contains(x) implies !sub.contains(x) by {
            lemma_contains_append(pre, own, x);
        }
        lemma_nodup_append(pre + own, sub);
        assert(binder_ids_pairs(bnds) == pre + own + sub);
        assert forall|x: int|
            binder_ids_pairs(bnds).contains(x) implies (ctr < x <= ctr + ids_of_list(
            fns,
            fuel,
            es,
        )) || (base < x <= base + es.len()) by {
            lemma_contains_append(pre + own, sub, x);
            lemma_contains_append(pre, own, x);
            if own.contains(x) {
                assert(own[0] == base + es.len());
            }
        }
    }
}

/// Hygiene for the pairs of a surface `let` node: the fresh ids sit just
/// past `base`, the right-hand sides' binders above `ctr`, and none
/// repeat.
proof fn lemma_hygiene_lbinds(
    fns: Seq<Defn>,
    bs: Seq<(Symbol, VarId)>,
    ctr: int,
    fuel: nat,
    binds: Seq<(Symbol, Expr)>,
    bnds: Seq<(VarId, UnrolledExpr)>,
    base: int,
)
    requires
        rel_ok_lbinds(fns, bs, ctr, fuel, binds, bnds, base),
        ctr >= base + binds.len(),
    ensures
        forall|x: int|
            binder_ids_pairs(bnds).contains(x) ==> (base < x <= base + binds.len()) || (ctr < x
                <= ctr + ids_of_pairs(fns, fuel, binds)),
        binder_ids_pairs(bnds).no_duplicates(),
    decreases fuel, binds, 0int,
{
        reveal_with_fuel(binder_ids, 3);
        reveal_with_fuel(binder_ids_builtin, 3);
        reveal_with_fuel(binder_ids_list, 3);
        reveal_with_fuel(binder_ids_pairs, 3);
    if binds.len() == 0 {
        assert(binder_ids_pairs(bnds) =~= Seq::<int>::empty());
    } else {
        lemma_ids_of_pairs_mono(fns, fuel, binds);
        lemma_hygiene_lbinds(fns, bs, ctr, fuel, binds.drop_last(), bnds.drop_last(), base);
        lemma_hygiene(
            fns,
            bs,
            ctr + ids_of_pairs(fns, fuel, binds.drop_last()),
            fuel,
            binds.last().1,
            bnds.last().1,
        );
        let pre = binder_ids_pairs(bnds.drop_last());
        let own = seq![bnds.last().0 as int];
        let sub = binder_ids(bnds.last().1);
        assert(own.no_duplicates());
        assert forall|x: int| pre.contains(x) implies !own.contains(x) by {
            assert(own[0] == base + binds.len());
        }
        lemma_nodup_append(pre, own);
        assert forall|x: int| (pre + own).contains(x) implies !sub.contains(x) by {
            lemma_contains_append(pre, own, x);
            if own.contains(x) {
                assert(own[0] == base + binds.len());
            }
        }
        lemma_nodup_append(pre + own, sub);
        assert(binder_ids_pairs(bnds) == pre + own + sub);
        assert forall|x: int|
            binder_ids_pairs(bnds).contains(x) implies (base < x <= base + binds.len()) || (ctr < x
                <= ctr + ids_of_pairs(fns, fuel, binds)) by {
            lemma_contains_append(pre + own, sub, x);
            lemma_contains_append(pre, own, x);
            if own.contains(x) {
                assert(own[0] == base + binds.len());
            }
        }
    }
}

/// A prefix of a list allocates no more ids than the whole list.
proof fn lemma_ids_of_list_mono(fns: Seq<Defn>, fuel: nat, es: Seq<Expr>)
    requires
        es.len() > 0,
    ensures
        ids_of_list(fns, fuel, es.drop_last()) <= ids_of_list(fns, fuel, es),
{
}

/// A prefix of the binding pairs allocates no more ids than all of them.
proof fn lemma_ids_of_pairs_mono(fns: Seq<Defn>, fuel: nat, binds: Seq<(Symbol, Expr)>)
    requires
        binds.len() > 0,
    ensures
        ids_of_pairs(fns, fuel, binds.drop_last()) <= ids_of_pairs(fns, fuel, binds),
{
}

/// Uniqueness and freshness of mangled ids, stated at the engine's
/// entry: every id a whole-program expansion binds is strictly greater
/// than the reserved seed (so the VM's reserved heap slots are never
/// touched) and no two distinct bindings ever receive the same id.
pub proof fn lemma_expand_fns_hygienic(fns: Seq<Defn>, e: Expr, u: UnrolledExpr)
    requires
        rel_ok(fns, Seq::empty(), MANGLER_SEED as int, (fns.len() + 1) as nat, e, u),
    ensures
        binder_ids(u).no_duplicates(),
        forall|x: int| binder_ids(u).contains(x) ==> x > MANGLER_SEED,
{
    lemma_hygiene(fns, Seq::empty(), MANGLER_SEED as int, (fns.len() + 1) as nat, e, u);
}

/// Shadowing in the binding environment: a newly pushed binding wins for
/// its own name and changes nothing for any other name.
pub proof fn lemma_lookup_shadow(bs: Seq<(Symbol, VarId)>, p: (Symbol, VarId), y: Seq<char>)
    ensures
        lookup(bs.push(p), p.0@) == Some(p.1),
        y != p.0@ ==> lookup(bs.push(p), y) == lookup(bs, y),
{
    assert(bs.push(p).drop_last() =~= bs);
}



/// Arity is never repaired: applying a defined function to the wrong
/// number of arguments cannot expand, and the only error it can raise is
/// the arity error carrying the declared and the supplied count — the
/// engine neither truncates nor pads an argument list.
pub proof fn lemma_arity_mismatch(
    fns: Seq<Defn>,
    bs: Seq<(Symbol, VarId)>,
    ctr: int,
    fuel: nat,
    f: Symbol,
    es: Vec<Expr>,
)
    requires
        lookup_fn(fns, f@) is Some,
        (lookup_fn(fns, f@)->Some_0).0@.len() != es@.len(),
    ensures
        !can_ok(fns, bs, ctr, fuel, Expr::App(f, es)),
        forall|u: UnrolledExpr| !rel_ok(fns, bs, ctr, fuel, Expr::App(f, es), u),
        forall|pe: ParseErr|
            #[trigger] rel_err(fns, bs, ctr, fuel, Expr::App(f, es), pe) <==> (match pe {
                ParseErr::ArityMismatch(expected, given) => {
                    &&& expected == (lookup_fn(fns, f@)->Some_0).0@.len()
                    &&& given == es@.len()
                },
                _ => false,
            }),
{
}

/// A reference to an unbound variable never expands, and the only error
/// it can raise is the undefined-variable error naming that variable;
/// the host therefore compiles nothing for such a program.
pub proof fn lemma_undefined_variable(
    fns: Seq<Defn>,
    bs: Seq<(Symbol, VarId)>,
    ctr: int,
    fuel: nat,
    x: Symbol,
)
    requires
        lookup(bs, x@) is None,
    ensures
        !can_ok(fns, bs, ctr, fuel, Expr::Var(x)),
        forall|u: UnrolledExpr| !rel_ok(fns, bs, ctr, fuel, Expr::Var(x), u),
        forall|pe: ParseErr|
            #[trigger] rel_err(fns, bs, ctr, fuel, Expr::Var(x), pe) <==> (match pe {
                ParseErr::UndefinedVariable(s) => s@ == x@,
                _ => false,
            }),
{
}

/// An application of a name absent from the function table never
/// expands, and the only error it can raise is the undefined-function
/// error naming it; the host therefore compiles nothing for such a
/// program.
pub proof fn lemma_undefined_function(
    fns: Seq<Defn>,
    bs: Seq<(Symbol, VarId)>,
    ctr: int,
    fuel: nat,
    f: Symbol,
    es: Vec<Expr>,
)
    requires
        lookup_fn(fns, f@) is None,
    ensures
        !can_ok(fns, bs, ctr, fuel, Expr::App(f, es)),
        forall|u: UnrolledExpr| !rel_ok(fns, bs, ctr, fuel, Expr::App(f, es), u),
        forall|pe: ParseErr|
            #[trigger] rel_err(fns, bs, ctr, fuel, Expr::App(f, es), pe) <==> (match pe {
                ParseErr::UndefinedFunction(s) => s@ == f@,
                _ => false,
            }),
{
}

} // verus!
