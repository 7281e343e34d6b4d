//! Node construction: the decisions that turn an operator, its operands and
//! the answers of the store and of the type/value service into a node.
//!
//! A build goes: check that every operand is a node, type-check the operator
//! alone, fetch every operand, [`plan_application`] to get the full
//! application and its environments, type-check and evaluate that, and
//! [`mk_sensemaker_entry`] to package the node or report the first failure.
//! `crate::session` runs these steps one request at a time.
use vstd::prelude::*;

use crate::entry::{
    operand_views, ContentHash, CreateSensemakerEntryInput, EntryView, FlatValue, OperandView,
    Scheme, SensemakerEntry, SensemakerOperand,
};
use crate::expr::{
    apply_all, apply_vars, cons_all, cons_vars, fresh_names, fresh_run,
    lemma_above_max_fresh_not_occurs, lam_all, max_fresh, max_fresh_index, occurs, wrap_lambdas, Expr,
    Name,
};

verus! {

/// Why a node could not be built.
#[derive(Debug, PartialEq, Eq)]
pub enum BuildError {
    /// An operand that is not a node; the hash is that of the first such operand.
    UnsupportedOperand(ContentHash),
    /// The operator alone does not type-check.
    OperatorTypeError(String),
    /// An operand hash that the store does not hold.
    OperandNotFound(ContentHash),
    /// An operand record that does not decode as a node.
    OperandMalformed(ContentHash),
    /// The operator applied to the operands does not type-check.
    ApplicationTypeError(String),
    /// Evaluation ran out of gas.
    GasExhausted,
    /// An application was asked for with nothing to apply.
    NoOperator,
}

pub enum BuildErrorView {
    UnsupportedOperand(Seq<u8>),
    OperatorTypeError(Seq<char>),
    OperandNotFound(Seq<u8>),
    OperandMalformed(Seq<u8>),
    ApplicationTypeError(Seq<char>),
    GasExhausted,
    NoOperator,
}

impl View for BuildError {
    type V = BuildErrorView;

    open spec fn view(&self) -> BuildErrorView {
        match self {
            BuildError::UnsupportedOperand(h) => BuildErrorView::UnsupportedOperand(h@),
            BuildError::OperatorTypeError(m) => BuildErrorView::OperatorTypeError(m@),
            BuildError::OperandNotFound(h) => BuildErrorView::OperandNotFound(h@),
            BuildError::OperandMalformed(h) => BuildErrorView::OperandMalformed(h@),
            BuildError::ApplicationTypeError(m) => BuildErrorView::ApplicationTypeError(m@),
            BuildError::GasExhausted => BuildErrorView::GasExhausted,
            BuildError::NoOperator => BuildErrorView::NoOperator,
        }
    }
}

/// What the store answered for one operand hash.
#[derive(Debug, PartialEq, Eq)]
pub enum OperandLookup {
    Missing,
    Malformed,
    Found(SensemakerEntry),
}

pub enum LookupView {
    Missing,
    Malformed,
    Found(EntryView),
}

impl View for OperandLookup {
    type V = LookupView;

    open spec fn view(&self) -> LookupView {
        match self {
            OperandLookup::Missing => LookupView::Missing,
            OperandLookup::Malformed => LookupView::Malformed,
            OperandLookup::Found(e) => LookupView::Found(e@),
        }
    }
}

impl OperandLookup {
    pub fn copy(&self) -> (r: OperandLookup)
        ensures
            r@ == self@,
    {
        match self {
            OperandLookup::Missing => OperandLookup::Missing,
            OperandLookup::Malformed => OperandLookup::Malformed,
            OperandLookup::Found(e) => OperandLookup::Found(e.copy()),
        }
    }
}

/// What evaluating the full application gave.
#[derive(Debug, PartialEq, Eq)]
pub enum Evaluation {
    Finished(FlatValue, u64),
    GasExhausted,
}

/// The hash an operand refers to, whatever its kind.
pub open spec fn operand_hash(o: OperandView) -> Seq<u8> {
    match o {
        OperandView::Node(h) => h,
        OperandView::Other(h) => h,
    }
}

/// The hash of the first operand at or after `i` that is not a node, if any.
pub open spec fn first_unsupported(ops: Seq<OperandView>, i: int) -> Option<Seq<u8>>
    decreases ops.len() - i,
{
    if i < 0 || i >= ops.len() {
        None
    } else {
        match ops[i] {
            OperandView::Other(h) => Some(h),
            OperandView::Node(_) => first_unsupported(ops, i + 1),
        }
    }
}

/// The store's answer for operand `i`; an answer that was not given counts as missing.
pub open spec fn lookup_at(fetched: Seq<LookupView>, i: int) -> LookupView {
    if 0 <= i < fetched.len() {
        fetched[i]
    } else {
        LookupView::Missing
    }
}

/// The error for the first operand at or after `i` that the store could not
/// resolve to a node, if any.
pub open spec fn first_unresolved(ops: Seq<OperandView>, fetched: Seq<LookupView>, i: int) -> Option<BuildErrorView>
    decreases ops.len() - i,
{
    if i < 0 || i >= ops.len() {
        None
    } else {
        match lookup_at(fetched, i) {
            LookupView::Missing => Some(BuildErrorView::OperandNotFound(operand_hash(ops[i]))),
            LookupView::Malformed => Some(BuildErrorView::OperandMalformed(operand_hash(ops[i]))),
            LookupView::Found(_) => first_unresolved(ops, fetched, i + 1),
        }
    }
}

pub open spec fn lookup_views(fetched: Seq<OperandLookup>) -> Seq<LookupView> {
    fetched.map_values(|l: OperandLookup| l@)
}

/// The hashes of `args` when every one is a node operand; otherwise the
/// first operand that is not.
pub fn node_operand_hashes(args: &Vec<SensemakerOperand>) -> (r: Result<Vec<ContentHash>, BuildError>)
    ensures
        match first_unsupported(operand_views(args@), 0) {
            Some(h) => r is Err && r->Err_0@ == BuildErrorView::UnsupportedOperand(h),
            None => r is Ok && r->Ok_0.len() == args.len()
                && forall|i: int| 0 <= i < args.len() ==> (#[trigger] r->Ok_0@[i])@ == operand_hash(args@[i]@),
        },
{
    let ghost ops = operand_views(args@);
    let mut hashes: Vec<ContentHash> = Vec::new();
    let mut i: usize = 0;
    while i < args.len()
        invariant
            0 <= i <= args.len(),
            ops == operand_views(args@),
            first_unsupported(ops, 0) == first_unsupported(ops, i as int),
            hashes.len() == i,
            forall|j: int| 0 <= j < i ==> (#[trigger] hashes@[j])@ == operand_hash(args@[j]@),
        decreases args.len() - i,
    {
        match &args[i] {
            SensemakerOperand::SensemakerOperand(h) => {
                hashes.push(h.copy());
            },
            SensemakerOperand::OtherOperand(h) => {
                return Err(BuildError::UnsupportedOperand(h.copy()));
            },
        }
        i = i + 1;
    }
    Ok(hashes)
}

/// The node found for operand `i`, when the store found one.
pub open spec fn found_at(fetched: Seq<LookupView>, i: int) -> EntryView
    recommends
        lookup_at(fetched, i) is Found,
{
    lookup_at(fetched, i)->Found_0
}

/// The nodes that the store gave for `args`, in order; otherwise the error for
/// the first operand it could not resolve.
pub fn resolve_operands(args: &Vec<SensemakerOperand>, fetched: &Vec<OperandLookup>) -> (r: Result<Vec<SensemakerEntry>, BuildError>)
    ensures
        match first_unresolved(operand_views(args@), lookup_views(fetched@), 0) {
            Some(e) => r is Err && r->Err_0@ == e,
            None => r is Ok && r->Ok_0.len() == args.len()
                && forall|i: int| 0 <= i < args.len()
                    ==> (#[trigger] r->Ok_0@[i])@ == found_at(lookup_views(fetched@), i),
        },
{
    let ghost ops = operand_views(args@);
    let ghost fv = lookup_views(fetched@);
    let mut nodes: Vec<SensemakerEntry> = Vec::new();
    let mut i: usize = 0;
    while i < args.len()
        invariant
            0 <= i <= args.len(),
            ops == operand_views(args@),
            fv == lookup_views(fetched@),
            first_unresolved(ops, fv, 0) == first_unresolved(ops, fv, i as int),
            nodes.len() == i,
            forall|j: int| 0 <= j < i ==> lookup_at(fv, j) is Found && (#[trigger] nodes@[j])@ == found_at(fv, j),
        decreases args.len() - i,
    {
        let h = match &args[i] {
            SensemakerOperand::SensemakerOperand(h) => h,
            SensemakerOperand::OtherOperand(h) => h,
        };
        if i >= fetched.len() {
            return Err(BuildError::OperandNotFound(h.copy()));
        }
        match &fetched[i] {
            OperandLookup::Missing => {
                return Err(BuildError::OperandNotFound(h.copy()));
            },
            OperandLookup::Malformed => {
                return Err(BuildError::OperandMalformed(h.copy()));
            },
            OperandLookup::Found(e) => {
                nodes.push(e.copy());
            },
        }
        i = i + 1;
    }
    Ok(nodes)
}

/// A binder name and the scheme it has in the application's type environment.
#[derive(Debug, PartialEq, Eq)]
pub struct TypeBinding {
    pub name: Name,
    pub scheme: Scheme,
}

/// A binder name and the value it has in the application's term environment.
#[derive(Debug, PartialEq, Eq)]
pub struct ValueBinding {
    pub name: Name,
    pub value: FlatValue,
}

/// What the type/value service is asked to type-check and evaluate.
#[derive(Debug, PartialEq, Eq)]
pub struct ApplicationPlan {
    /// One binder per operand, in operand order.
    pub binders: Vec<Name>,
    /// The operator applied to the binders, the first binder first.
    pub application: Expr,
    /// Each binder with its operand's output scheme.
    pub type_env: Vec<TypeBinding>,
    /// Each binder with its operand's output value.
    pub value_env: Vec<ValueBinding>,
}

/// The binders that a build over `operator` with `n` operands uses: fresh
/// names above every fresh name that occurs in `operator`.
pub open spec fn binders_for(operator: Expr, n: nat) -> Seq<Name> {
    fresh_run((max_fresh(operator) + 1) as u64, n)
}

/// The full application and its environments for `operator` over the nodes
/// `resolved` (the dereferenced operands, in order).
pub fn plan_application(operator: &Expr, resolved: &Vec<SensemakerEntry>) -> (r: ApplicationPlan)
    requires
        max_fresh(*operator) + resolved.len() < u64::MAX,
    ensures
        r.binders@ == binders_for(*operator, resolved.len() as nat),
        forall|i: int| 0 <= i < r.binders.len() ==> !occurs(#[trigger] r.binders@[i], *operator),
        forall|i: int, j: int| 0 <= i < j < r.binders.len() ==> r.binders@[i] != r.binders@[j],
        r.application == apply_all(*operator, r.binders@),
        r.type_env.len() == resolved.len(),
        r.value_env.len() == resolved.len(),
        forall|i: int| 0 <= i < resolved.len() ==> (#[trigger] r.type_env@[i]).name == r.binders@[i]
            && r.type_env@[i].scheme@ == resolved@[i].output_scheme@,
        forall|i: int| 0 <= i < resolved.len() ==> (#[trigger] r.value_env@[i]).name == r.binders@[i]
            && r.value_env@[i].value@ == resolved@[i].output_flat_value@,
{
    let start = max_fresh_index(operator) + 1;
    let binders = fresh_names(start, resolved.len());
    proof {
        assert forall|i: int| 0 <= i < binders.len() implies !occurs(#[trigger] binders@[i], *operator) by {
            lemma_above_max_fresh_not_occurs((start + i) as u64, *operator);
        }
    }
    let application = apply_vars(operator.copy(), &binders);
    let mut type_env: Vec<TypeBinding> = Vec::new();
    let mut value_env: Vec<ValueBinding> = Vec::new();
    let mut i: usize = 0;
    while i < resolved.len()
        invariant
            0 <= i <= resolved.len(),
            binders.len() == resolved.len(),
            type_env.len() == i,
            value_env.len() == i,
            forall|j: int| 0 <= j < i ==> (#[trigger] type_env@[j]).name == binders@[j]
                && type_env@[j].scheme@ == resolved@[j].output_scheme@,
            forall|j: int| 0 <= j < i ==> (#[trigger] value_env@[j]).name == binders@[j]
                && value_env@[j].value@ == resolved@[j].output_flat_value@,
        decreases resolved.len() - i,
    {
        type_env.push(TypeBinding { name: binders[i].copy(), scheme: resolved[i].output_scheme.copy() });
        value_env.push(ValueBinding { name: binders[i].copy(), value: resolved[i].output_flat_value.copy() });
        i = i + 1;
    }
    ApplicationPlan { binders, application, type_env, value_env }
}

pub enum EvaluationView {
    Finished(Seq<u8>, u64),
    GasExhausted,
}

impl View for Evaluation {
    type V = EvaluationView;

    open spec fn view(&self) -> EvaluationView {
        match self {
            Evaluation::Finished(v, g) => EvaluationView::Finished(v@, *g),
            Evaluation::GasExhausted => EvaluationView::GasExhausted,
        }
    }
}

impl Evaluation {
    pub fn copy(&self) -> (r: Evaluation)
        ensures
            r@ == self@,
    {
        match self {
            Evaluation::Finished(v, g) => Evaluation::Finished(v.copy(), *g),
            Evaluation::GasExhausted => Evaluation::GasExhausted,
        }
    }
}

pub open spec fn message_view(m: Option<String>) -> Option<Seq<char>> {
    match m {
        Some(s) => Some(s@),
        None => None,
    }
}

pub open spec fn typing_view(t: Result<Scheme, String>) -> Result<Seq<u8>, Seq<char>> {
    match t {
        Ok(sc) => Ok(sc@),
        Err(m) => Err(m@),
    }
}

pub open spec fn build_result_view(r: Result<SensemakerEntry, BuildError>) -> Result<EntryView, BuildErrorView> {
    match r {
        Ok(e) => Ok(e@),
        Err(e) => Err(e@),
    }
}

/// The outcome of building a node from `operator` and `operands`, given the
/// type error of the operator alone (if any), the store's answers for the
/// operands, the type of the full application and its evaluation.
///
/// The first failure wins, in this order: an operand that is not a node, an
/// operator that does not type-check, an operand the store cannot resolve,
/// an application that does not type-check, evaluation out of gas.
pub open spec fn build_outcome(
    operator: Expr,
    operands: Seq<OperandView>,
    operator_error: Option<Seq<char>>,
    fetched: Seq<LookupView>,
    application_type: Result<Seq<u8>, Seq<char>>,
    evaluation: EvaluationView,
) -> Result<EntryView, BuildErrorView> {
    if let Some(h) = first_unsupported(operands, 0) {
        Err(BuildErrorView::UnsupportedOperand(h))
    } else if let Some(m) = operator_error {
        Err(BuildErrorView::OperatorTypeError(m))
    } else if let Some(e) = first_unresolved(operands, fetched, 0) {
        Err(e)
    } else {
        match application_type {
            Err(m) => Err(BuildErrorView::ApplicationTypeError(m)),
            Ok(sc) => match evaluation {
                EvaluationView::GasExhausted => Err(BuildErrorView::GasExhausted),
                EvaluationView::Finished(v, g) => Ok(
                    EntryView {
                        operator,
                        operands,
                        output_scheme: sc,
                        output_flat_value: v,
                        start_gas: g,
                    },
                ),
            },
        }
    }
}

/// Packages the node built from `expr` and `args`, or reports the first
/// failure (see [`build_outcome`]).
///
/// `operator_error` is the type error of `expr` alone, `fetched` the store's
/// answer for each operand in order, `application_type` the type of the full
/// application that [`plan_application`] gives, and `evaluation` its value.
pub fn mk_sensemaker_entry(
    expr: Expr,
    args: Vec<SensemakerOperand>,
    operator_error: Option<String>,
    fetched: &Vec<OperandLookup>,
    application_type: Result<Scheme, String>,
    evaluation: Evaluation,
) -> (r: Result<SensemakerEntry, BuildError>)
    ensures
        build_result_view(r) == build_outcome(
            expr,
            operand_views(args@),
            message_view(operator_error),
            lookup_views(fetched@),
            typing_view(application_type),
            evaluation@,
        ),
{
    match node_operand_hashes(&args) {
        Err(e) => {
            return Err(e);
        },
        Ok(_) => {},
    }
    match operator_error {
        Some(m) => {
            return Err(BuildError::OperatorTypeError(m));
        },
        None => {},
    }
    match resolve_operands(&args, fetched) {
        Err(e) => {
            return Err(e);
        },
        Ok(_) => {},
    }
    match application_type {
        Err(m) => Err(BuildError::ApplicationTypeError(m)),
        Ok(sc) => match evaluation {
            Evaluation::GasExhausted => Err(BuildError::GasExhausted),
            Evaluation::Finished(v, g) => Ok(
                SensemakerEntry {
                    operator: expr,
                    operands: args,
                    output_scheme: sc,
                    output_flat_value: v,
                    start_gas: g,
                },
            ),
        },
    }
}

/// Building is deterministic. The same operator, operands and answers give
/// the same outcome, and a successful build holds exactly the scheme, value
/// and gas that the service reported. The binders of the application depend on
/// the operator and the number of operands alone, not on which operands or on
/// who builds, so two builders hand the service the same application.
pub proof fn lemma_build_deterministic(
    operator: Expr,
    operands: Seq<OperandView>,
    operator_error: Option<Seq<char>>,
    fetched: Seq<LookupView>,
    application_type: Result<Seq<u8>, Seq<char>>,
    evaluation: EvaluationView,
    first: Result<EntryView, BuildErrorView>,
    second: Result<EntryView, BuildErrorView>,
    first_resolved: Seq<EntryView>,
    second_resolved: Seq<EntryView>,
)
    requires
        first == build_outcome(operator, operands, operator_error, fetched, application_type, evaluation),
        second == build_outcome(operator, operands, operator_error, fetched, application_type, evaluation),
        first_resolved.len() == second_resolved.len(),
    ensures
        first == second,
        first is Ok ==> application_type is Ok && evaluation is Finished
            && first->Ok_0.output_scheme == application_type->Ok_0
            && first->Ok_0.output_flat_value == evaluation->Finished_0
            && first->Ok_0.start_gas == evaluation->Finished_1,
        binders_for(operator, first_resolved.len()) == binders_for(operator, second_resolved.len()),
        apply_all(operator, binders_for(operator, first_resolved.len()))
            == apply_all(operator, binders_for(operator, second_resolved.len())),
{
}

/// Node operands for `hashes`, in order.
pub fn node_operands(hashes: &Vec<ContentHash>) -> (r: Vec<SensemakerOperand>)
    ensures
        r.len() == hashes.len(),
        forall|i: int| 0 <= i < hashes.len() ==> (#[trigger] r@[i])@ == OperandView::Node(hashes@[i]@),
{
    let mut r: Vec<SensemakerOperand> = Vec::new();
    let mut i: usize = 0;
    while i < hashes.len()
        invariant
            0 <= i <= hashes.len(),
            r.len() == i,
            forall|j: int| 0 <= j < i ==> (#[trigger] r@[j])@ == OperandView::Node(hashes@[j]@),
        decreases hashes.len() - i,
    {
        r.push(SensemakerOperand::SensemakerOperand(hashes[i].copy()));
        i = i + 1;
    }
    r
}

/// The operator that applies its first argument to all the others:
/// `\n0 n1 ... nk -> n0 n1 ... nk`.
pub open spec fn application_operator(n: nat) -> Expr {
    let names = fresh_run(0, n);
    lam_all(names, apply_all(Expr::Var(names[0]), names.drop_first()))
}

/// The operator that collects its arguments into a list:
/// `\n0 ... nk -> Cons nk (... (Cons n0 Nil))`.
pub open spec fn list_operator(n: nat) -> Expr {
    let names = fresh_run(0, n);
    lam_all(names, cons_all(names))
}

/// The request that applies the node `hashes[0]` to the nodes `hashes[1..]`.
pub fn application_request(hashes: &Vec<ContentHash>) -> (r: CreateSensemakerEntryInput)
    requires
        hashes.len() > 1,
    ensures
        r.expr == application_operator(hashes.len() as nat),
        r.args.len() == hashes.len(),
        forall|i: int| 0 <= i < hashes.len() ==> (#[trigger] r.args@[i])@ == OperandView::Node(hashes@[i]@),
{
    let names = fresh_names(0, hashes.len());
    let mut rest: Vec<Name> = Vec::new();
    let mut i: usize = 1;
    while i < names.len()
        invariant
            1 <= i <= names.len(),
            rest@ == names@.subrange(1, i as int),
        decreases names.len() - i,
    {
        rest.push(names[i].copy());
        i = i + 1;
        assert(rest@ =~= names@.subrange(1, i as int));
    }
    assert(rest@ =~= names@.drop_first());
    let body = apply_vars(Expr::Var(names[0].copy()), &rest);
    let expr = wrap_lambdas(&names, body);
    CreateSensemakerEntryInput { expr, args: node_operands(hashes) }
}

/// A request that applies the node `hashes[0]` to the nodes `hashes[1..]`, in
/// that order. Fails with `NoOperator` unless there is an operator and at
/// least one operand.
pub fn mk_application_se(hashes: &Vec<ContentHash>) -> (r: Result<CreateSensemakerEntryInput, BuildError>)
    ensures
        hashes.len() <= 1 ==> r is Err && r->Err_0@ == BuildErrorView::NoOperator,
        hashes.len() > 1 ==> r is Ok && r->Ok_0.expr == application_operator(hashes.len() as nat)
            && r->Ok_0.args.len() == hashes.len()
            && forall|i: int| 0 <= i < hashes.len() ==> (#[trigger] r->Ok_0.args@[i])@ == OperandView::Node(hashes@[i]@),
{
    if hashes.len() <= 1 {
        Err(BuildError::NoOperator)
    } else {
        Ok(application_request(hashes))
    }
}

/// A request that packs the nodes `hashes` into one list node; the list holds
/// their values last to first.
pub fn pack_ses_into_list_se(hashes: &Vec<ContentHash>) -> (r: CreateSensemakerEntryInput)
    ensures
        r.expr == list_operator(hashes.len() as nat),
        r.args.len() == hashes.len(),
        forall|i: int| 0 <= i < hashes.len() ==> (#[trigger] r.args@[i])@ == OperandView::Node(hashes@[i]@),
{
    let names = fresh_names(0, hashes.len());
    let body = cons_vars(&names);
    let expr = wrap_lambdas(&names, body);
    CreateSensemakerEntryInput { expr, args: node_operands(hashes) }
}

} // verus!
