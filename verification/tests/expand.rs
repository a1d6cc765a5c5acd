use mil::parser::expansion::{try_get_var, Env, Evaluator, LinearMangler, MANGLER_SEED};
use mil::types::{
    BuiltIn, Defn, Expr, ExpandedBuiltIn, Int256, ParseErr, UnrolledExpr, Value, VarId,
};

fn lit(n: u64) -> Expr {
    Expr::Value(Value::Int(Int256::from_u64(n)))
}

fn ulit(n: u64) -> UnrolledExpr {
    UnrolledExpr::Value(Value::Int(Int256::from_u64(n)))
}

fn var(s: &str) -> Expr {
    Expr::Var(s.to_string())
}

fn defn(name: &str, params: &[&str], body: Expr) -> Defn {
    (
        name.to_string(),
        (params.iter().map(|p| p.to_string()).collect(), body),
    )
}

fn add(a: Expr, b: Expr) -> Expr {
    Expr::BuiltIn(Box::new(BuiltIn::Add(a, b)))
}

fn let_one(name: &str, bound: Expr, bodies: Vec<Expr>) -> Expr {
    Expr::Let(vec![(name.to_string(), bound)], bodies)
}

/// Collect every id bound by a `Let` node, in traversal order. Only the
/// shapes these tests produce are walked.
fn binders(u: &UnrolledExpr, out: &mut Vec<VarId>) {
    match u {
        UnrolledExpr::Value(_) => {}
        UnrolledExpr::Var(_) => {}
        UnrolledExpr::SetVar(_, u1) => binders(u1, out),
        UnrolledExpr::BuiltIn(bx) => match &**bx {
            ExpandedBuiltIn::Add(a, b) => {
                binders(a, out);
                binders(b, out);
            }
            ExpandedBuiltIn::Mul(a, b) => {
                binders(a, out);
                binders(b, out);
            }
            ExpandedBuiltIn::Not(a) => binders(a, out),
            _ => {}
        },
        UnrolledExpr::Let(bnds, bodies) => {
            for (v, rhs) in bnds {
                out.push(*v);
                binders(rhs, out);
            }
            for b in bodies {
                binders(b, out);
            }
        }
    }
}

#[test]
fn shadowing_resolves_to_inner_binding() {
    // let x = 1 in (let x = 2 in x): the body reference picks the inner
    // binding's fresh id, whose bound value is 2.
    let prog = let_one("x", lit(1), vec![let_one("x", lit(2), vec![var("x")])]);
    let env = Env::new(Vec::new());
    let got = env.expand_fns(&prog).unwrap();
    let expected = UnrolledExpr::Let(
        vec![(3, ulit(1))],
        vec![UnrolledExpr::Let(
            vec![(4, ulit(2))],
            vec![UnrolledExpr::Var(4)],
        )],
    );
    assert_eq!(got, expected);
}

#[test]
fn outer_binding_visible_without_shadow() {
    // let x = 1 in (let y = x in x): both uses of x resolve to the outer
    // binding's id.
    let prog = let_one("x", lit(1), vec![let_one("y", var("x"), vec![var("x")])]);
    let env = Env::new(Vec::new());
    let got = env.expand_fns(&prog).unwrap();
    let expected = UnrolledExpr::Let(
        vec![(3, ulit(1))],
        vec![UnrolledExpr::Let(
            vec![(4, UnrolledExpr::Var(3))],
            vec![UnrolledExpr::Var(3)],
        )],
    );
    assert_eq!(got, expected);
}

#[test]
fn arity_too_few_arguments_fails() {
    let env = Env::new(vec![defn("f", &["a", "b"], add(var("a"), var("b")))]);
    let prog = Expr::App("f".to_string(), vec![lit(1)]);
    assert_eq!(env.expand_fns(&prog), Err(ParseErr::ArityMismatch(2, 1)));
}

#[test]
fn arity_too_many_arguments_fails() {
    let env = Env::new(vec![defn("f", &["a", "b"], add(var("a"), var("b")))]);
    let prog = Expr::App("f".to_string(), vec![lit(1), lit(2), lit(3)]);
    assert_eq!(env.expand_fns(&prog), Err(ParseErr::ArityMismatch(2, 3)));
}

#[test]
fn undefined_variable_fails() {
    let env = Env::new(Vec::new());
    assert_eq!(
        env.expand_fns(&var("nope")),
        Err(ParseErr::UndefinedVariable("nope".to_string()))
    );
}

#[test]
fn undefined_variable_in_set_fails() {
    let env = Env::new(Vec::new());
    let prog = Expr::SetVar("nope".to_string(), Box::new(lit(1)));
    assert_eq!(
        env.expand_fns(&prog),
        Err(ParseErr::UndefinedVariable("nope".to_string()))
    );
}

#[test]
fn undefined_function_fails() {
    let env = Env::new(Vec::new());
    let prog = Expr::App("missing".to_string(), vec![lit(1)]);
    assert_eq!(
        env.expand_fns(&prog),
        Err(ParseErr::UndefinedFunction("missing".to_string()))
    );
}

#[test]
fn unsupported_builtins_fail() {
    let env = Env::new(Vec::new());
    let vslice = Expr::BuiltIn(Box::new(BuiltIn::Vslice(lit(1), lit(2), lit(3))));
    assert_eq!(env.expand_fns(&vslice), Err(ParseErr::UnsupportedBuiltIn));
    let load = Expr::BuiltIn(Box::new(BuiltIn::Load("x".to_string())));
    assert_eq!(env.expand_fns(&load), Err(ParseErr::UnsupportedBuiltIn));
    let store = Expr::BuiltIn(Box::new(BuiltIn::Store("x".to_string())));
    assert_eq!(env.expand_fns(&store), Err(ParseErr::UnsupportedBuiltIn));
}

#[test]
fn first_operand_error_wins() {
    let env = Env::new(Vec::new());
    let prog = add(var("first"), var("second"));
    assert_eq!(
        env.expand_fns(&prog),
        Err(ParseErr::UndefinedVariable("first".to_string()))
    );
}

#[test]
fn inline_single_function() {
    // double(a) = add(a, a); double(1) becomes a let binding the fresh
    // parameter id to the argument, over the renamed body.
    let env = Env::new(vec![defn("double", &["a"], add(var("a"), var("a")))]);
    let prog = Expr::App("double".to_string(), vec![lit(1)]);
    let got = env.expand_fns(&prog).unwrap();
    let expected = UnrolledExpr::Let(
        vec![(3, ulit(1))],
        vec![UnrolledExpr::BuiltIn(Box::new(ExpandedBuiltIn::Add(
            UnrolledExpr::Var(3),
            UnrolledExpr::Var(3),
        )))],
    );
    assert_eq!(got, expected);
}

#[test]
fn nested_inlining_keeps_ids_distinct() {
    // f(x) = g(x, x) and g(p, q) = add(p, q): inlining flattens three
    // scopes into nested lets with pairwise distinct ids.
    let env = Env::new(vec![
        defn("g", &["p", "q"], add(var("p"), var("q"))),
        defn("f", &["x"], Expr::App("g".to_string(), vec![var("x"), var("x")])),
    ]);
    let prog = Expr::App("f".to_string(), vec![lit(7)]);
    let got = env.expand_fns(&prog).unwrap();
    let expected = UnrolledExpr::Let(
        vec![(3, ulit(7))],
        vec![UnrolledExpr::Let(
            vec![(4, UnrolledExpr::Var(3)), (5, UnrolledExpr::Var(3))],
            vec![UnrolledExpr::BuiltIn(Box::new(ExpandedBuiltIn::Add(
                UnrolledExpr::Var(4),
                UnrolledExpr::Var(5),
            )))],
        )],
    );
    assert_eq!(got, expected);

    let mut ids = Vec::new();
    binders(&got, &mut ids);
    let mut sorted = ids.clone();
    sorted.sort();
    sorted.dedup();
    assert_eq!(sorted.len(), ids.len(), "a mangled id was reused");
    assert!(ids.iter().all(|&v| v > MANGLER_SEED));
}

#[test]
fn ids_unique_across_sibling_scopes() {
    // Two sibling lets and an inlined call may never share ids.
    let env = Env::new(vec![defn("double", &["a"], add(var("a"), var("a")))]);
    let prog = Expr::Let(
        vec![
            ("x".to_string(), lit(1)),
            ("y".to_string(), let_one("z", lit(2), vec![var("z")])),
        ],
        vec![
            Expr::App("double".to_string(), vec![var("x")]),
            var("y"),
        ],
    );
    let got = env.expand_fns(&prog).unwrap();
    let mut ids = Vec::new();
    binders(&got, &mut ids);
    let mut sorted = ids.clone();
    sorted.sort();
    sorted.dedup();
    assert_eq!(sorted.len(), ids.len(), "a mangled id was reused");
    assert!(ids.iter().all(|&v| v > MANGLER_SEED));
}

#[test]
fn cyclic_definition_hits_recursion_limit() {
    let env = Env::new(vec![defn(
        "looper",
        &[],
        Expr::App("looper".to_string(), Vec::new()),
    )]);
    let prog = Expr::App("looper".to_string(), Vec::new());
    assert_eq!(env.expand_fns(&prog), Err(ParseErr::RecursionLimit));
}

#[test]
fn acyclic_chain_within_budget() {
    // A chain as deep as the table still expands: f -> g -> h.
    let env = Env::new(vec![
        defn("h", &["c"], var("c")),
        defn("g", &["b"], Expr::App("h".to_string(), vec![var("b")])),
        defn("f", &["a"], Expr::App("g".to_string(), vec![var("a")])),
    ]);
    let prog = Expr::App("f".to_string(), vec![lit(1)]);
    assert!(env.expand_fns(&prog).is_ok());
}

#[test]
fn set_expands_to_bound_id() {
    let prog = let_one(
        "x",
        lit(1),
        vec![Expr::SetVar("x".to_string(), Box::new(lit(2)))],
    );
    let env = Env::new(Vec::new());
    let got = env.expand_fns(&prog).unwrap();
    let expected = UnrolledExpr::Let(
        vec![(3, ulit(1))],
        vec![UnrolledExpr::SetVar(3, Box::new(ulit(2)))],
    );
    assert_eq!(got, expected);
}

#[test]
fn values_pass_through_unchanged() {
    let env = Env::new(Vec::new());
    assert_eq!(env.expand_fns(&lit(42)).unwrap(), ulit(42));
    let bytes = Expr::Value(Value::Bytes(vec![1, 2]));
    assert_eq!(
        env.expand_fns(&bytes).unwrap(),
        UnrolledExpr::Value(Value::Bytes(vec![1, 2]))
    );
}

#[test]
fn arguments_expand_in_caller_scope() {
    // id(a) = a; let x = 1 in id(x): the argument resolves against the
    // caller's binding, the parameter gets a fresh id.
    let env = Env::new(vec![defn("id", &["a"], var("a"))]);
    let prog = let_one("x", lit(1), vec![Expr::App("id".to_string(), vec![var("x")])]);
    let got = env.expand_fns(&prog).unwrap();
    let expected = UnrolledExpr::Let(
        vec![(3, ulit(1))],
        vec![UnrolledExpr::Let(
            vec![(4, UnrolledExpr::Var(3))],
            vec![UnrolledExpr::Var(4)],
        )],
    );
    assert_eq!(got, expected);
}

#[test]
fn later_definition_wins() {
    let env = Env::new(vec![
        defn("f", &["a"], var("a")),
        defn("f", &["a"], add(var("a"), var("a"))),
    ]);
    let prog = Expr::App("f".to_string(), vec![lit(1)]);
    let got = env.expand_fns(&prog).unwrap();
    let expected = UnrolledExpr::Let(
        vec![(3, ulit(1))],
        vec![UnrolledExpr::BuiltIn(Box::new(ExpandedBuiltIn::Add(
            UnrolledExpr::Var(3),
            UnrolledExpr::Var(3),
        )))],
    );
    assert_eq!(got, expected);
}

#[test]
fn vempty_expands_alone() {
    let env = Env::new(Vec::new());
    let prog = Expr::BuiltIn(Box::new(BuiltIn::Vempty));
    assert_eq!(
        env.expand_fns(&prog).unwrap(),
        UnrolledExpr::BuiltIn(Box::new(ExpandedBuiltIn::Vempty))
    );
}

#[test]
fn try_get_var_prefers_last_binding() {
    let bs = vec![
        ("x".to_string(), 3),
        ("y".to_string(), 4),
        ("x".to_string(), 5),
    ];
    assert_eq!(try_get_var(&"x".to_string(), &bs), Ok(5));
    assert_eq!(try_get_var(&"y".to_string(), &bs), Ok(4));
    assert_eq!(
        try_get_var(&"z".to_string(), &bs),
        Err(ParseErr::UndefinedVariable("z".to_string()))
    );
}

#[test]
fn mangler_hands_out_successors() {
    let mut m = LinearMangler { idx: MANGLER_SEED };
    assert_eq!(m.next(), 3);
    assert_eq!(m.next(), 4);
    assert_eq!(m.idx, 4);
}
