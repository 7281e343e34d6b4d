//! Expressions of the embedded pure language, as far as node construction
//! needs to build and inspect them.
use vstd::prelude::*;

verus! {

/// A variable name: either written by a user or allocated by a builder.
#[derive(Debug, PartialEq, Eq)]
pub enum Name {
    Named(String),
    Fresh(u64),
}

#[derive(Debug, PartialEq, Eq)]
pub enum Lit {
    LInt(i64),
    LBool(bool),
}

#[derive(Debug, PartialEq, Eq)]
pub enum PrimOp {
    Add,
    Sub,
    Mul,
    Eql,
    Cons,
    Nil,
}

#[derive(Debug, PartialEq, Eq)]
pub enum Expr {
    Var(Name),
    Lit(Lit),
    Prim(PrimOp),
    App(Box<Expr>, Box<Expr>),
    Lam(Name, Box<Expr>),
}

/// The largest index `k` such that `Fresh(k)` occurs in `e`, or 0.
pub open spec fn max_fresh(e: Expr) -> u64
    decreases e,
{
    match e {
        Expr::Var(Name::Fresh(k)) => k,
        Expr::App(f, x) => {
            let a = max_fresh(*f);
            let b = max_fresh(*x);
            if a >= b { a } else { b }
        },
        Expr::Lam(Name::Fresh(k), body) => {
            let b = max_fresh(*body);
            if k >= b { k } else { b }
        },
        Expr::Lam(_, body) => max_fresh(*body),
        _ => 0,
    }
}

/// Whether the name `n` occurs in `e`, bound or free.
pub open spec fn occurs(n: Name, e: Expr) -> bool
    decreases e,
{
    match e {
        Expr::Var(m) => m == n,
        Expr::App(f, x) => occurs(n, *f) || occurs(n, *x),
        Expr::Lam(m, body) => m == n || occurs(n, *body),
        _ => false,
    }
}

/// A fresh name whose index exceeds every fresh index in `e` does not occur in `e`.
pub proof fn lemma_above_max_fresh_not_occurs(k: u64, e: Expr)
    requires
        k > max_fresh(e),
    ensures
        !occurs(Name::Fresh(k), e),
    decreases e,
{
    match e {
        Expr::App(f, x) => {
            lemma_above_max_fresh_not_occurs(k, *f);
            lemma_above_max_fresh_not_occurs(k, *x);
        },
        Expr::Lam(_, body) => {
            lemma_above_max_fresh_not_occurs(k, *body);
        },
        _ => {},
    }
}

/// Computes `max_fresh(e)`.
pub fn max_fresh_index(e: &Expr) -> (r: u64)
    ensures
        r == max_fresh(*e),
    decreases e,
{
    match e {
        Expr::Var(Name::Fresh(k)) => *k,
        Expr::App(f, x) => {
            let a = max_fresh_index(f);
            let b = max_fresh_index(x);
            if a >= b { a } else { b }
        },
        Expr::Lam(Name::Fresh(k), body) => {
            let b = max_fresh_index(body);
            if *k >= b { *k } else { b }
        },
        Expr::Lam(_, body) => max_fresh_index(body),
        _ => 0,
    }
}


impl Name {
    /// A copy of this name.
    pub fn copy(&self) -> (r: Name)
        ensures
            r == *self,
    {
        match self {
            Name::Named(s) => Name::Named(s.clone()),
            Name::Fresh(k) => Name::Fresh(*k),
        }
    }
}

impl Lit {
    pub fn copy(&self) -> (r: Lit)
        ensures
            r == *self,
    {
        match self {
            Lit::LInt(i) => Lit::LInt(*i),
            Lit::LBool(b) => Lit::LBool(*b),
        }
    }
}

impl PrimOp {
    pub fn copy(&self) -> (r: PrimOp)
        ensures
            r == *self,
    {
        match self {
            PrimOp::Add => PrimOp::Add,
            PrimOp::Sub => PrimOp::Sub,
            PrimOp::Mul => PrimOp::Mul,
            PrimOp::Eql => PrimOp::Eql,
            PrimOp::Cons => PrimOp::Cons,
            PrimOp::Nil => PrimOp::Nil,
        }
    }
}

impl Expr {
    /// A deep copy of this expression.
    pub fn copy(&self) -> (r: Expr)
        ensures
            r == *self,
        decreases self,
    {
        match self {
            Expr::Var(n) => Expr::Var(n.copy()),
            Expr::Lit(l) => Expr::Lit(l.copy()),
            Expr::Prim(p) => Expr::Prim(p.copy()),
            Expr::App(f, x) => Expr::App(Box::new((**f).copy()), Box::new((**x).copy())),
            Expr::Lam(n, body) => Expr::Lam(n.copy(), Box::new((**body).copy())),
        }
    }
}

/// `f` applied to the variables `names`, one after another from the first:
/// `f n0 n1 ... nk`.
pub open spec fn apply_all(f: Expr, names: Seq<Name>) -> Expr
    decreases names.len(),
{
    if names.len() == 0 {
        f
    } else {
        Expr::App(Box::new(apply_all(f, names.drop_last())), Box::new(Expr::Var(names.last())))
    }
}

/// `body` under one lambda per name, the first name outermost: `\n0 n1 ... -> body`.
pub open spec fn lam_all(names: Seq<Name>, body: Expr) -> Expr
    decreases names.len(),
{
    if names.len() == 0 {
        body
    } else {
        Expr::Lam(names[0], Box::new(lam_all(names.drop_first(), body)))
    }
}

/// The list expression that conses each variable of `names`, first to last, onto `Nil`,
/// so that the last name ends up at the head.
pub open spec fn cons_all(names: Seq<Name>) -> Expr
    decreases names.len(),
{
    if names.len() == 0 {
        Expr::Prim(PrimOp::Nil)
    } else {
        Expr::App(
            Box::new(Expr::App(Box::new(Expr::Prim(PrimOp::Cons)), Box::new(Expr::Var(names.last())))),
            Box::new(cons_all(names.drop_last())),
        )
    }
}

/// `Fresh(start)`, `Fresh(start + 1)`, ..., `n` names in all.
pub open spec fn fresh_run(start: u64, n: nat) -> Seq<Name> {
    Seq::new(n, |i: int| Name::Fresh((start + i) as u64))
}

/// Operands are applied first to last: `f` applied to `names` is `f` applied
/// to the first name, then that applied to the rest.
pub proof fn lemma_apply_first(f: Expr, names: Seq<Name>)
    requires
        names.len() > 0,
    ensures
        apply_all(f, names) == apply_all(Expr::App(Box::new(f), Box::new(Expr::Var(names[0]))), names.drop_first()),
    decreases names.len(),
{
    let g = Expr::App(Box::new(f), Box::new(Expr::Var(names[0])));
    if names.len() > 1 {
        lemma_apply_first(f, names.drop_last());
        assert(names.drop_last()[0] == names[0]);
        assert(names.drop_last().drop_first() =~= names.drop_first().drop_last());
        assert(names.drop_first().last() == names.last());
        assert(apply_all(g, names.drop_first()) == Expr::App(
            Box::new(apply_all(g, names.drop_first().drop_last())),
            Box::new(Expr::Var(names.drop_first().last())),
        ));
    } else {
        assert(names.drop_last() =~= Seq::<Name>::empty());
        assert(names.drop_first() =~= Seq::<Name>::empty());
        assert(apply_all(f, names.drop_last()) == f);
        assert(apply_all(g, names.drop_first()) == g);
    }
}

/// Builds `apply_all(f, names)`.
pub fn apply_vars(f: Expr, names: &Vec<Name>) -> (r: Expr)
    ensures
        r == apply_all(f, names@),
{
    let mut acc = f;
    let mut i: usize = 0;
    while i < names.len()
        invariant
            0 <= i <= names.len(),
            acc == apply_all(f, names@.subrange(0, i as int)),
        decreases names.len() - i,
    {
        assert(names@.subrange(0, i as int + 1).drop_last() == names@.subrange(0, i as int));
        acc = Expr::App(Box::new(acc), Box::new(Expr::Var(names[i].copy())));
        i = i + 1;
    }
    assert(names@.subrange(0, names.len() as int) == names@);
    acc
}

/// Builds `lam_all(names, body)`.
pub fn wrap_lambdas(names: &Vec<Name>, body: Expr) -> (r: Expr)
    ensures
        r == lam_all(names@, body),
{
    let mut acc = body;
    let mut i: usize = names.len();
    while i > 0
        invariant
            0 <= i <= names.len(),
            acc == lam_all(names@.subrange(i as int, names.len() as int), body),
        decreases i,
    {
        i = i - 1;
        assert(names@.subrange(i as int, names.len() as int).drop_first()
            == names@.subrange(i as int + 1, names.len() as int));
        acc = Expr::Lam(names[i].copy(), Box::new(acc));
    }
    assert(names@.subrange(0, names.len() as int) == names@);
    acc
}

/// Builds `cons_all(names)`.
pub fn cons_vars(names: &Vec<Name>) -> (r: Expr)
    ensures
        r == cons_all(names@),
{
    let mut acc = Expr::Prim(PrimOp::Nil);
    let mut i: usize = 0;
    while i < names.len()
        invariant
            0 <= i <= names.len(),
            acc == cons_all(names@.subrange(0, i as int)),
        decreases names.len() - i,
    {
        assert(names@.subrange(0, i as int + 1).drop_last() == names@.subrange(0, i as int));
        let cons_head = Expr::App(Box::new(Expr::Prim(PrimOp::Cons)), Box::new(Expr::Var(names[i].copy())));
        acc = Expr::App(Box::new(cons_head), Box::new(acc));
        i = i + 1;
    }
    assert(names@.subrange(0, names.len() as int) == names@);
    acc
}

/// The names `Fresh(start)` .. `Fresh(start + n - 1)`.
pub fn fresh_names(start: u64, n: usize) -> (r: Vec<Name>)
    requires
        start + n <= u64::MAX,
    ensures
        r@ == fresh_run(start, n as nat),
{
    let mut v: Vec<Name> = Vec::new();
    let mut i: usize = 0;
    while i < n
        invariant
            0 <= i <= n,
            start + n <= u64::MAX,
            v@ == fresh_run(start, i as nat),
        decreases n - i,
    {
        v.push(Name::Fresh(start + i as u64));
        i = i + 1;
        assert(v@ =~= fresh_run(start, i as nat));
    }
    v
}

} // verus!
