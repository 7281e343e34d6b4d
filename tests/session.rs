use social_sensemaker::builder::{BuildError, Evaluation, OperandLookup};
use social_sensemaker::entry::{ContentHash, FlatValue, Scheme, SensemakerEntry, SensemakerOperand};
use social_sensemaker::expr::{Expr, Lit, Name, PrimOp};
use social_sensemaker::session::{start_build, BuildStep, Phase};

fn h(b: u8) -> ContentHash {
    ContentHash { bytes: vec![b, 1] }
}

fn op(b: u8) -> SensemakerOperand {
    SensemakerOperand::SensemakerOperand(h(b))
}

fn lit(i: u8) -> SensemakerEntry {
    SensemakerEntry {
        operator: Expr::Lit(Lit::LInt(i as i64)),
        operands: vec![],
        output_scheme: Scheme { encoded: b"Int".to_vec() },
        output_flat_value: FlatValue { encoded: vec![i] },
        start_gas: 9,
    }
}

#[test]
fn session_asks_in_order_and_packages_the_node() {
    let add = Expr::Prim(PrimOp::Add);
    let (mut s, step) = start_build(add.copy(), vec![op(1), op(2)]);
    assert_eq!(step, BuildStep::TypeOperator);
    assert_eq!(s.on_operator_typed(None), BuildStep::Fetch(h(1)));
    assert_eq!(s.on_fetched(OperandLookup::Found(lit(1))), BuildStep::Fetch(h(2)));
    assert_eq!(s.on_fetched(OperandLookup::Found(lit(2))), BuildStep::TypeApplication);
    let plan = s.plan.as_ref().unwrap();
    assert_eq!(
        plan.application,
        Expr::App(
            Box::new(Expr::App(Box::new(add.copy()), Box::new(Expr::Var(Name::Fresh(1))))),
            Box::new(Expr::Var(Name::Fresh(2)))
        )
    );
    assert_eq!(plan.value_env[1].value, FlatValue { encoded: vec![2] });
    assert_eq!(s.on_application_typed(Ok(Scheme { encoded: b"Int".to_vec() })), BuildStep::Evaluate);
    let done = s.on_evaluated(Evaluation::Finished(FlatValue { encoded: vec![3] }, 4));
    assert_eq!(
        done,
        BuildStep::Done(Ok(SensemakerEntry {
            operator: add,
            operands: vec![op(1), op(2)],
            output_scheme: Scheme { encoded: b"Int".to_vec() },
            output_flat_value: FlatValue { encoded: vec![3] },
            start_gas: 4,
        }))
    );
    assert_eq!(s.phase, Phase::Finished);
}

#[test]
fn session_stops_on_unsupported_operand() {
    let (_, step) = start_build(Expr::Prim(PrimOp::Add), vec![op(1), SensemakerOperand::OtherOperand(h(5))]);
    assert_eq!(step, BuildStep::Done(Err(BuildError::UnsupportedOperand(h(5)))));
}

#[test]
fn session_stops_on_operator_type_error() {
    let (mut s, _) = start_build(Expr::Prim(PrimOp::Add), vec![op(1)]);
    let step = s.on_operator_typed(Some("no".to_string()));
    assert_eq!(step, BuildStep::Done(Err(BuildError::OperatorTypeError("no".to_string()))));
}

#[test]
fn session_stops_on_missing_operand() {
    let (mut s, _) = start_build(Expr::Prim(PrimOp::Add), vec![op(1), op(2)]);
    s.on_operator_typed(None);
    s.on_fetched(OperandLookup::Found(lit(1)));
    assert_eq!(s.on_fetched(OperandLookup::Missing), BuildStep::Done(Err(BuildError::OperandNotFound(h(2)))));
}

#[test]
fn session_stops_on_malformed_operand() {
    let (mut s, _) = start_build(Expr::Prim(PrimOp::Add), vec![op(1)]);
    s.on_operator_typed(None);
    assert_eq!(s.on_fetched(OperandLookup::Malformed), BuildStep::Done(Err(BuildError::OperandMalformed(h(1)))));
}

#[test]
fn session_stops_on_application_type_error() {
    let (mut s, _) = start_build(Expr::Lit(Lit::LInt(0)), vec![op(1)]);
    s.on_operator_typed(None);
    s.on_fetched(OperandLookup::Found(lit(1)));
    let step = s.on_application_typed(Err("Int is not a function".to_string()));
    assert_eq!(step, BuildStep::Done(Err(BuildError::ApplicationTypeError("Int is not a function".to_string()))));
}

#[test]
fn session_reports_gas_exhaustion() {
    let (mut s, _) = start_build(Expr::Lit(Lit::LInt(0)), vec![]);
    assert_eq!(s.on_operator_typed(None), BuildStep::TypeApplication);
    assert_eq!(s.plan.as_ref().unwrap().application, Expr::Lit(Lit::LInt(0)));
    s.on_application_typed(Ok(Scheme { encoded: b"Int".to_vec() }));
    assert_eq!(s.on_evaluated(Evaluation::GasExhausted), BuildStep::Done(Err(BuildError::GasExhausted)));
}
