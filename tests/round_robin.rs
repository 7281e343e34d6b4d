// Multi-step builds in which each node takes earlier nodes as operands. The
// evaluator of the expression language lives outside the library; these tests
// answer for it with a small interpreter of integer arithmetic, so that what
// they check is how the library threads operands, binders and values from one
// build to the next.
use std::collections::HashMap;

use social_sensemaker::builder::{mk_sensemaker_entry, plan_application, resolve_operands, Evaluation, OperandLookup};
use social_sensemaker::entry::{ContentHash, FlatValue, Scheme, SensemakerEntry, SensemakerOperand};
use social_sensemaker::expr::{Expr, Lit, Name, PrimOp};

enum Val {
    Int(i64),
    Clo(Name, Expr, HashMap<String, Val>),
    AddWith(Option<i64>),
    SubWith(Option<i64>),
}

impl Clone for Val {
    fn clone(&self) -> Val {
        match self {
            Val::Int(i) => Val::Int(*i),
            Val::Clo(n, body, env) => Val::Clo(n.copy(), body.copy(), env.clone()),
            Val::AddWith(a) => Val::AddWith(*a),
            Val::SubWith(a) => Val::SubWith(*a),
        }
    }
}

fn key(n: &Name) -> String {
    match n {
        Name::Named(s) => format!("n:{}", s),
        Name::Fresh(k) => format!("f:{}", k),
    }
}

fn eval(e: &Expr, env: &HashMap<String, Val>) -> Val {
    match e {
        Expr::Lit(Lit::LInt(i)) => Val::Int(*i),
        Expr::Var(n) => env[&key(n)].clone(),
        Expr::Prim(PrimOp::Add) => Val::AddWith(None),
        Expr::Prim(PrimOp::Sub) => Val::SubWith(None),
        Expr::Lam(n, body) => Val::Clo(n.copy(), body.copy(), env.clone()),
        Expr::App(f, x) => {
            let fv = eval(f, env);
            let xv = eval(x, env);
            match (fv, xv) {
                (Val::AddWith(None), Val::Int(a)) => Val::AddWith(Some(a)),
                (Val::AddWith(Some(a)), Val::Int(b)) => Val::Int(a + b),
                (Val::SubWith(None), Val::Int(a)) => Val::SubWith(Some(a)),
                (Val::SubWith(Some(a)), Val::Int(b)) => Val::Int(a - b),
                (Val::Clo(n, body, mut cenv), v) => {
                    cenv.insert(key(&n), v);
                    eval(&body, &cenv)
                }
                _ => panic!("ill-typed application"),
            }
        }
        _ => panic!("outside the arithmetic these tests use"),
    }
}

fn encode(i: i64) -> FlatValue {
    FlatValue { encoded: i.to_le_bytes().to_vec() }
}

fn decode(v: &FlatValue) -> i64 {
    let mut b = [0u8; 8];
    b.copy_from_slice(&v.encoded);
    i64::from_le_bytes(b)
}

fn int_scheme() -> Scheme {
    Scheme { encoded: b"Int".to_vec() }
}

/// A store of published nodes, keyed by a hash made from the position.
struct Store {
    nodes: Vec<SensemakerEntry>,
}

impl Store {
    fn hash(i: usize) -> ContentHash {
        ContentHash { bytes: (i as u64).to_le_bytes().to_vec() }
    }

    fn lookup(&self, h: &ContentHash) -> OperandLookup {
        let mut b = [0u8; 8];
        b.copy_from_slice(&h.bytes);
        match self.nodes.get(u64::from_le_bytes(b) as usize) {
            Some(n) => OperandLookup::Found(n.copy()),
            None => OperandLookup::Missing,
        }
    }

    /// Builds `expr` over the nodes `operands` and publishes the result.
    fn build(&mut self, expr: Expr, operands: &[usize]) -> usize {
        let args: Vec<SensemakerOperand> =
            operands.iter().map(|i| SensemakerOperand::SensemakerOperand(Store::hash(*i))).collect();
        let fetched: Vec<OperandLookup> = operands.iter().map(|i| self.lookup(&Store::hash(*i))).collect();
        let resolved = resolve_operands(&args, &fetched).unwrap();
        let plan = plan_application(&expr, &resolved);
        let mut env = HashMap::new();
        for b in plan.value_env.iter() {
            env.insert(key(&b.name), Val::Int(decode(&b.value)));
        }
        let value = match eval(&plan.application, &env) {
            Val::Int(i) => i,
            _ => panic!("a node of these tests holds an integer"),
        };
        let node = mk_sensemaker_entry(expr, args, None, &fetched, Ok(int_scheme()), Evaluation::Finished(encode(value), 1000))
            .unwrap();
        self.nodes.push(node);
        self.nodes.len() - 1
    }

    fn value(&self, i: usize) -> i64 {
        decode(&self.nodes[i].output_flat_value)
    }
}

fn add_one() -> Expr {
    Expr::App(Box::new(Expr::Prim(PrimOp::Add)), Box::new(Expr::Lit(Lit::LInt(1))))
}

#[test]
fn simple_test_round_robin_incrementation() {
    let mut store = Store { nodes: vec![] };
    let mut last = store.build(Expr::Lit(Lit::LInt(0)), &[]);
    assert_eq!(store.value(last), 0);
    for step in 1..=51 {
        last = store.build(add_one(), &[last]);
        assert_eq!(store.value(last), step);
    }
    assert_eq!(store.value(last), 51);
}

fn nth_fib(mut n: i64) -> i64 {
    let mut x0 = 0;
    let mut x1 = 1;
    while n > 1 {
        n -= 1;
        let tmp = x0 + x1;
        x0 = x1;
        x1 = tmp;
    }
    x1
}

#[test]
fn test_round_robin_fibonacci() {
    let mut store = Store { nodes: vec![] };
    let mut prev = store.build(Expr::Lit(Lit::LInt(0)), &[]);
    let mut cur = store.build(Expr::Lit(Lit::LInt(1)), &[]);
    for _ in 1..37 {
        let next = store.build(Expr::Prim(PrimOp::Add), &[prev, cur]);
        prev = cur;
        cur = next;
    }
    assert_eq!(store.value(cur), nth_fib(37));
}

/// `\arg_0 ... arg_k -> 0 + arg_0 + ... + arg_k`
fn sum_all(k: usize) -> Expr {
    let names: Vec<Name> = (0..k).map(|n| Name::Named(format!("arg_{}", n))).collect();
    let add = |acc: Expr, x: Expr| {
        Expr::App(Box::new(Expr::App(Box::new(Expr::Prim(PrimOp::Add)), Box::new(acc))), Box::new(x))
    };
    let body = names.iter().fold(Expr::Lit(Lit::LInt(0)), |acc, n| add(acc, Expr::Var(n.copy())));
    names.into_iter().rev().fold(body, |bd, n| Expr::Lam(n, Box::new(bd)))
}

fn nth_sum_all(n: u32) -> i64 {
    2_i64.pow(n)
}

#[test]
fn test_round_robin_arity_n_sum() {
    let mut store = Store { nodes: vec![] };
    let first = store.build(Expr::Lit(Lit::LInt(1)), &[]);
    let mut args = vec![first];
    for _ in 0..=37 {
        let next = store.build(sum_all(args.len()), &args);
        args.push(next);
    }
    let last = *args.last().expect("args should be non-empty");
    assert_eq!(store.value(last), nth_sum_all(37));
}

#[test]
fn operand_order_decides_subtraction() {
    // `\x y -> x - y` over 5 and 3: operand 0 must bind `x`.
    let mut store = Store { nodes: vec![] };
    let five = store.build(Expr::Lit(Lit::LInt(5)), &[]);
    let three = store.build(Expr::Lit(Lit::LInt(3)), &[]);
    let x = Name::Named("x".to_string());
    let y = Name::Named("y".to_string());
    let body = Expr::App(
        Box::new(Expr::App(Box::new(Expr::Prim(PrimOp::Sub)), Box::new(Expr::Var(x.copy())))),
        Box::new(Expr::Var(y.copy())),
    );
    let minus = Expr::Lam(x, Box::new(Expr::Lam(y, Box::new(body))));
    let resolved = vec![store.nodes[five].copy(), store.nodes[three].copy()];
    let plan = plan_application(&minus, &resolved);
    // the first binder, applied first, carries 5
    match &plan.application {
        Expr::App(inner, second) => {
            assert_eq!(**second, Expr::Var(plan.value_env[1].name.copy()));
            assert_eq!(**inner, Expr::App(Box::new(minus.copy()), Box::new(Expr::Var(plan.value_env[0].name.copy()))));
        }
        _ => panic!("an application of two operands"),
    }
    assert_eq!(decode(&plan.value_env[0].value), 5);
    assert_eq!(decode(&plan.value_env[1].value), 3);
    let difference = store.build(minus, &[five, three]);
    assert_eq!(store.value(difference), 2);
}
