use social_sensemaker::builder::{BuildError, Evaluation, OperandLookup};
use social_sensemaker::entry::{ContentHash, FlatValue, Scheme, SensemakerEntry, SensemakerOperand};
use social_sensemaker::expr::{Expr, Lit, PrimOp};
use social_sensemaker::validate::{validate_create_update_entry_sensemaker_entry, InvalidReason, ValidateCallbackResult};

fn scheme(s: &[u8]) -> Scheme {
    Scheme { encoded: s.to_vec() }
}

fn value(v: u8) -> FlatValue {
    FlatValue { encoded: vec![v] }
}

fn operand_node() -> SensemakerEntry {
    SensemakerEntry {
        operator: Expr::Lit(Lit::LInt(0)),
        operands: vec![],
        output_scheme: scheme(b"Int"),
        output_flat_value: value(0),
        start_gas: 5,
    }
}

fn received(sc: &[u8], v: u8) -> SensemakerEntry {
    SensemakerEntry {
        operator: Expr::App(Box::new(Expr::Prim(PrimOp::Add)), Box::new(Expr::Lit(Lit::LInt(1)))),
        operands: vec![SensemakerOperand::SensemakerOperand(ContentHash { bytes: vec![7] })],
        output_scheme: scheme(sc),
        output_flat_value: value(v),
        start_gas: 3,
    }
}

fn check(candidate: Option<SensemakerEntry>, ty: Result<Scheme, String>, ev: Evaluation) -> ValidateCallbackResult {
    validate_create_update_entry_sensemaker_entry(candidate, None, &vec![OperandLookup::Found(operand_node())], ty, ev)
}

#[test]
fn honest_node_is_valid() {
    let r = check(Some(received(b"Int", 1)), Ok(scheme(b"Int")), Evaluation::Finished(value(1), 3));
    assert_eq!(r, ValidateCallbackResult::Valid);
}

#[test]
fn tampered_value_is_invalid() {
    let r = check(Some(received(b"Int", 9)), Ok(scheme(b"Int")), Evaluation::Finished(value(1), 3));
    assert_eq!(r, ValidateCallbackResult::Invalid(InvalidReason::ValueMismatch(value(1), value(9))));
}

#[test]
fn tampered_scheme_is_invalid() {
    let r = check(Some(received(b"Bool", 1)), Ok(scheme(b"Int")), Evaluation::Finished(value(1), 3));
    assert_eq!(r, ValidateCallbackResult::Invalid(InvalidReason::SchemeMismatch(scheme(b"Int"), scheme(b"Bool"))));
}

#[test]
fn failed_rebuild_is_invalid() {
    let r = check(Some(received(b"Int", 1)), Ok(scheme(b"Int")), Evaluation::GasExhausted);
    assert_eq!(r, ValidateCallbackResult::Invalid(InvalidReason::Rebuild(BuildError::GasExhausted)));
}

#[test]
fn record_of_another_kind_is_not_refused() {
    let r = check(None, Err("irrelevant".to_string()), Evaluation::GasExhausted);
    assert_eq!(r, ValidateCallbackResult::Valid);
}

#[test]
fn missing_operand_makes_a_node_invalid() {
    let r = validate_create_update_entry_sensemaker_entry(
        Some(received(b"Int", 1)),
        None,
        &vec![OperandLookup::Missing],
        Ok(scheme(b"Int")),
        Evaluation::Finished(value(1), 3),
    );
    assert_eq!(
        r,
        ValidateCallbackResult::Invalid(InvalidReason::Rebuild(BuildError::OperandNotFound(ContentHash { bytes: vec![7] })))
    );
}
