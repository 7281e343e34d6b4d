//! Independent re-derivation of a received node.
use vstd::prelude::*;

use crate::builder::{
    build_outcome, lookup_views, message_view, mk_sensemaker_entry,
    typing_view, BuildError, BuildErrorView, Evaluation, EvaluationView, LookupView,
    OperandLookup,
};
use crate::entry::{copy_operands, operand_views, EntryView, FlatValue, Scheme, SensemakerEntry};

verus! {

/// Why a received node was refused.
#[derive(Debug, PartialEq, Eq)]
pub enum InvalidReason {
    /// The node could not be rebuilt from its operator and operands.
    Rebuild(BuildError),
    /// The rebuilt scheme (first) differs from the received one (second).
    SchemeMismatch(Scheme, Scheme),
    /// The rebuilt value (first) differs from the received one (second).
    ValueMismatch(FlatValue, FlatValue),
}

#[derive(Debug, PartialEq, Eq)]
pub enum ValidateCallbackResult {
    Valid,
    Invalid(InvalidReason),
}

pub enum ValidateView {
    Valid,
    Rebuild(BuildErrorView),
    SchemeMismatch(Seq<u8>, Seq<u8>),
    ValueMismatch(Seq<u8>, Seq<u8>),
}

impl View for ValidateCallbackResult {
    type V = ValidateView;

    open spec fn view(&self) -> ValidateView {
        match self {
            ValidateCallbackResult::Valid => ValidateView::Valid,
            ValidateCallbackResult::Invalid(InvalidReason::Rebuild(e)) => ValidateView::Rebuild(e@),
            ValidateCallbackResult::Invalid(InvalidReason::SchemeMismatch(computed, received)) =>
                ValidateView::SchemeMismatch(computed@, received@),
            ValidateCallbackResult::Invalid(InvalidReason::ValueMismatch(computed, received)) =>
                ValidateView::ValueMismatch(computed@, received@),
        }
    }
}

/// The verdict on `received` given what rebuilding it gave: valid exactly when
/// the rebuild succeeded with the same scheme and the same value.
pub open spec fn verdict(received: EntryView, rebuilt: Result<EntryView, BuildErrorView>) -> ValidateView {
    match rebuilt {
        Err(e) => ValidateView::Rebuild(e),
        Ok(n) => if n.output_scheme != received.output_scheme {
            ValidateView::SchemeMismatch(n.output_scheme, received.output_scheme)
        } else if n.output_flat_value != received.output_flat_value {
            ValidateView::ValueMismatch(n.output_flat_value, received.output_flat_value)
        } else {
            ValidateView::Valid
        },
    }
}

/// Checks a received record. A record that is not a node (`None`) is not this
/// check's business and is valid. A node is rebuilt from its own operator and
/// operands, with the store's and the service's answers for that rebuild, and
/// is valid exactly when the rebuild gives its scheme and its value.
pub fn validate_create_update_entry_sensemaker_entry(
    candidate: Option<SensemakerEntry>,
    operator_error: Option<String>,
    fetched: &Vec<OperandLookup>,
    application_type: Result<Scheme, String>,
    evaluation: Evaluation,
) -> (r: ValidateCallbackResult)
    ensures
        match candidate {
            None => r@ == ValidateView::Valid,
            Some(c) => r@ == verdict(
                c@,
                build_outcome(
                    c.operator,
                    operand_views(c.operands@),
                    message_view(operator_error),
                    lookup_views(fetched@),
                    typing_view(application_type),
                    evaluation@,
                ),
            ),
        },
{
    let c = match candidate {
        None => {
            return ValidateCallbackResult::Valid;
        },
        Some(c) => c,
    };
    let rebuilt = mk_sensemaker_entry(
        c.operator.copy(),
        copy_operands(&c.operands),
        operator_error,
        fetched,
        application_type,
        evaluation,
    );
    match rebuilt {
        Err(e) => ValidateCallbackResult::Invalid(InvalidReason::Rebuild(e)),
        Ok(n) => {
            if !n.output_scheme.same_as(&c.output_scheme) {
                ValidateCallbackResult::Invalid(InvalidReason::SchemeMismatch(n.output_scheme, c.output_scheme))
            } else if !n.output_flat_value.same_as(&c.output_flat_value) {
                ValidateCallbackResult::Invalid(
                    InvalidReason::ValueMismatch(n.output_flat_value, c.output_flat_value),
                )
            } else {
                ValidateCallbackResult::Valid
            }
        },
    }
}

/// A node that a build produced is valid when it is checked against the same
/// answers; a node with the same operator and operands whose scheme or value
/// was changed afterwards is invalid.
pub proof fn lemma_validator_sound(
    honest: EntryView,
    tampered: EntryView,
    operator_error: Option<Seq<char>>,
    fetched: Seq<LookupView>,
    application_type: Result<Seq<u8>, Seq<char>>,
    evaluation: EvaluationView,
)
    requires
        build_outcome(honest.operator, honest.operands, operator_error, fetched, application_type, evaluation)
            == Ok::<EntryView, BuildErrorView>(honest),
        tampered.operator == honest.operator,
        tampered.operands == honest.operands,
        tampered.output_scheme != honest.output_scheme
            || tampered.output_flat_value != honest.output_flat_value,
    ensures
        verdict(
            honest,
            build_outcome(honest.operator, honest.operands, operator_error, fetched, application_type, evaluation),
        ) == ValidateView::Valid,
        verdict(
            tampered,
            build_outcome(tampered.operator, tampered.operands, operator_error, fetched, application_type, evaluation),
        ) != ValidateView::Valid,
{
}

} // verus!
