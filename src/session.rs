//! A build as a conversation: the session says what it needs next (the
//! operator's type, an operand record, the application's type, its value),
//! its driver answers, and the session ends with the node or the first
//! failure, exactly as [`build_outcome`] gives it for the answers received.
use vstd::prelude::*;

use crate::builder::{
    binders_for, build_outcome, build_result_view, first_unresolved, first_unsupported, found_at,
    lookup_at, lookup_views, message_view, mk_sensemaker_entry, node_operand_hashes, operand_hash, plan_application,
    resolve_operands, typing_view, ApplicationPlan, BuildError, BuildErrorView, Evaluation,
    EvaluationView, LookupView, OperandLookup,
};
use crate::entry::{copy_operands, operand_views, ContentHash, OperandView, Scheme, SensemakerEntry, SensemakerOperand};
use crate::expr::{apply_all, max_fresh, Expr};

verus! {

/// What a build session needs next.
#[derive(Debug, PartialEq, Eq)]
pub enum BuildStep {
    /// The type error, if any, of the operator alone.
    TypeOperator,
    /// The store's record for this operand hash.
    Fetch(ContentHash),
    /// The type of the planned application (see `BuildSession::plan`).
    TypeApplication,
    /// The value of the planned application.
    Evaluate,
    /// The build is over.
    Done(Result<SensemakerEntry, BuildError>),
}

#[derive(Debug, PartialEq, Eq)]
pub enum Phase {
    Operator,
    Fetching,
    Typing,
    Evaluating,
    Finished,
}

/// The state of one build.
pub struct BuildSession {
    pub operator: Expr,
    pub args: Vec<SensemakerOperand>,
    /// The records received so far, one per operand in order.
    pub fetched: Vec<OperandLookup>,
    /// The application to type and evaluate, once every operand is resolved.
    pub plan: Option<ApplicationPlan>,
    /// The application's type, once it is known to type-check.
    pub application_type: Option<Scheme>,
    pub phase: Phase,
}

/// Stands for an answer that was never asked for.
pub open spec fn unasked_type() -> Result<Seq<u8>, Seq<char>> {
    Err(Seq::empty())
}

impl BuildSession {
    pub open spec fn ops(&self) -> Seq<OperandView> {
        operand_views(self.args@)
    }

    pub open spec fn received(&self) -> Seq<LookupView> {
        lookup_views(self.fetched@)
    }

    /// Every record received so far is a node.
    pub open spec fn all_found(&self) -> bool {
        forall|j: int| 0 <= j < self.fetched.len() ==> (#[trigger] self.received()[j]) is Found
    }

    /// The plan is the one for the operator over the received nodes.
    pub open spec fn plan_fits(&self) -> bool {
        let p = self.plan->Some_0;
        &&& p.binders@ == binders_for(self.operator, self.args.len() as nat)
        &&& p.application == apply_all(self.operator, p.binders@)
        &&& p.type_env.len() == self.args.len()
        &&& p.value_env.len() == self.args.len()
        &&& forall|i: int| 0 <= i < self.args.len() ==> (#[trigger] p.type_env@[i]).name == p.binders@[i]
            && p.type_env@[i].scheme@ == found_at(self.received(), i).output_scheme
        &&& forall|i: int| 0 <= i < self.args.len() ==> (#[trigger] p.value_env@[i]).name == p.binders@[i]
            && p.value_env@[i].value@ == found_at(self.received(), i).output_flat_value
    }

    /// The invariant of a session that is not finished.
    pub open spec fn wf(&self) -> bool {
        &&& first_unsupported(self.ops(), 0) is None
        &&& max_fresh(self.operator) + self.args.len() < u64::MAX
        &&& self.fetched.len() <= self.args.len()
        &&& self.all_found()
        &&& match self.phase {
            Phase::Operator => self.fetched.len() == 0 && self.plan is None && self.application_type is None,
            Phase::Fetching => self.fetched.len() < self.args.len() && self.plan is None
                && self.application_type is None,
            Phase::Typing => self.fetched.len() == self.args.len() && self.plan is Some
                && self.plan_fits() && self.application_type is None,
            Phase::Evaluating => self.fetched.len() == self.args.len() && self.plan is Some
                && self.plan_fits() && self.application_type is Some,
            Phase::Finished => false,
        }
    }
}

proof fn lemma_found_prefix(ops: Seq<OperandView>, f: Seq<LookupView>, k: int)
    requires
        0 <= k <= ops.len(),
        k <= f.len(),
        forall|j: int| 0 <= j < k ==> (#[trigger] f[j]) is Found,
    ensures
        first_unresolved(ops, f, 0) == first_unresolved(ops, f, k),
    decreases k,
{
    if k > 0 {
        lemma_found_prefix(ops, f, k - 1);
        assert(lookup_at(f, k - 1) is Found);
    }
}

/// Starts a build of `expr` over `args`. A non-node operand ends it at once.
pub fn start_build(expr: Expr, args: Vec<SensemakerOperand>) -> (r: (BuildSession, BuildStep))
    requires
        max_fresh(expr) + args.len() < u64::MAX,
    ensures
        match first_unsupported(operand_views(args@), 0) {
            Some(h) => r.1 is Done && r.1->Done_0 is Err && r.1->Done_0->Err_0@ == BuildErrorView::UnsupportedOperand(h),
            None => r.1 is TypeOperator && r.0.wf() && r.0.phase is Operator && r.0.operator == expr
                && r.0.ops() == operand_views(args@),
        },
{
    let err = match node_operand_hashes(&args) {
        Err(e) => Some(e),
        Ok(_) => None,
    };
    let session = BuildSession {
        operator: expr,
        args,
        fetched: Vec::new(),
        plan: None,
        application_type: None,
        phase: Phase::Operator,
    };
    match err {
        Some(e) => (BuildSession { phase: Phase::Finished, ..session }, BuildStep::Done(Err(e))),
        None => (session, BuildStep::TypeOperator),
    }
}

impl BuildSession {
    /// Resolves the received records and plans the application; every
    /// operand has been received and every record is a node.
    fn make_plan(&mut self)
        requires
            old(self).fetched.len() == old(self).args.len(),
            old(self).all_found(),
            first_unsupported(old(self).ops(), 0) is None,
            max_fresh(old(self).operator) + old(self).args.len() < u64::MAX,
        ensures
            final(self).operator == old(self).operator,
            final(self).args@ == old(self).args@,
            final(self).fetched@ == old(self).fetched@,
            final(self).application_type == old(self).application_type,
            final(self).phase == old(self).phase,
            final(self).plan is Some,
            final(self).plan_fits(),
    {
        proof {
            lemma_found_prefix(self.ops(), self.received(), self.args.len() as int);
        }
        match resolve_operands(&self.args, &self.fetched) {
            Ok(resolved) => {
                self.plan = Some(plan_application(&self.operator, &resolved));
            },
            Err(_) => {
                proof {
                    assert(false);
                }
            },
        }
    }

    /// The operator alone has the type error `error`, or none.
    pub fn on_operator_typed(&mut self, error: Option<String>) -> (r: BuildStep)
        requires
            old(self).wf(),
            old(self).phase is Operator,
        ensures
            final(self).operator == old(self).operator,
            final(self).ops() == old(self).ops(),
            error is Some ==> r is Done && final(self).phase is Finished && build_result_view(r->Done_0) == build_outcome(
                old(self).operator,
                old(self).ops(),
                message_view(error),
                Seq::empty(),
                unasked_type(),
                EvaluationView::GasExhausted,
            ),
            error is None && old(self).args.len() > 0 ==> final(self).wf() && final(self).phase is Fetching
                && final(self).fetched.len() == 0 && r is Fetch && r->Fetch_0@ == operand_hash(old(self).ops()[0]),
            error is None && old(self).args.len() == 0 ==> final(self).wf() && final(self).phase is Typing
                && final(self).fetched.len() == 0 && r is TypeApplication,
    {
        match error {
            Some(m) => {
                self.phase = Phase::Finished;
                BuildStep::Done(Err(BuildError::OperatorTypeError(m)))
            },
            None => {
                if self.args.len() == 0 {
                    self.make_plan();
                    self.phase = Phase::Typing;
                    BuildStep::TypeApplication
                } else {
                    self.phase = Phase::Fetching;
                    BuildStep::Fetch(self.operand_hash_at(0))
                }
            },
        }
    }

    fn operand_hash_at(&self, i: usize) -> (r: ContentHash)
        requires
            i < self.args.len(),
        ensures
            r@ == operand_hash(self.ops()[i as int]),
    {
        match &self.args[i] {
            SensemakerOperand::SensemakerOperand(h) => h.copy(),
            SensemakerOperand::OtherOperand(h) => h.copy(),
        }
    }

    /// The store answered `found` for the next operand.
    pub fn on_fetched(&mut self, found: OperandLookup) -> (r: BuildStep)
        requires
            old(self).wf(),
            old(self).phase is Fetching,
        ensures
            final(self).operator == old(self).operator,
            final(self).ops() == old(self).ops(),
            final(self).received() == old(self).received().push(found@),
            !(found is Found) ==> r is Done && final(self).phase is Finished && build_result_view(r->Done_0) == build_outcome(
                old(self).operator,
                old(self).ops(),
                None,
                final(self).received(),
                unasked_type(),
                EvaluationView::GasExhausted,
            ),
            found is Found && final(self).fetched.len() < final(self).args.len() ==> final(self).wf()
                && final(self).phase is Fetching && r is Fetch
                && r->Fetch_0@ == operand_hash(old(self).ops()[final(self).fetched.len() as int]),
            found is Found && final(self).fetched.len() == final(self).args.len() ==> final(self).wf()
                && final(self).phase is Typing && r is TypeApplication,
    {
        let k = self.fetched.len();
        let is_found = match &found {
            OperandLookup::Found(_) => true,
            _ => false,
        };
        let failure = match &found {
            OperandLookup::Missing => Some(BuildError::OperandNotFound(self.operand_hash_at(k))),
            OperandLookup::Malformed => Some(BuildError::OperandMalformed(self.operand_hash_at(k))),
            OperandLookup::Found(_) => None,
        };
        let ghost before = self.fetched@;
        self.fetched.push(found);
        proof {
            assert(self.received() =~= lookup_views(before).push(self.fetched@[k as int]@));
            lemma_found_prefix(self.ops(), self.received(), k as int);
            assert(lookup_at(self.received(), k as int) == self.fetched@[k as int]@);
        }
        match failure {
            Some(e) => {
                self.phase = Phase::Finished;
                BuildStep::Done(Err(e))
            },
            None => {
                proof {
                    assert(is_found);
                }
                if self.fetched.len() == self.args.len() {
                    self.make_plan();
                    self.phase = Phase::Typing;
                    BuildStep::TypeApplication
                } else {
                    BuildStep::Fetch(self.operand_hash_at(self.fetched.len()))
                }
            },
        }
    }

    /// The planned application has type `typing`, or does not type-check.
    pub fn on_application_typed(&mut self, typing: Result<Scheme, String>) -> (r: BuildStep)
        requires
            old(self).wf(),
            old(self).phase is Typing,
        ensures
            final(self).operator == old(self).operator,
            final(self).ops() == old(self).ops(),
            final(self).received() == old(self).received(),
            typing is Err ==> r is Done && final(self).phase is Finished && build_result_view(r->Done_0) == build_outcome(
                old(self).operator,
                old(self).ops(),
                None,
                old(self).received(),
                typing_view(typing),
                EvaluationView::GasExhausted,
            ),
            typing is Ok ==> final(self).wf() && final(self).phase is Evaluating && r is Evaluate
                && final(self).application_type is Some
                && final(self).application_type->Some_0@ == typing->Ok_0@,
    {
        proof {
            lemma_found_prefix(self.ops(), self.received(), self.args.len() as int);
        }
        match typing {
            Err(m) => {
                self.phase = Phase::Finished;
                BuildStep::Done(Err(BuildError::ApplicationTypeError(m)))
            },
            Ok(sc) => {
                self.application_type = Some(sc);
                self.phase = Phase::Evaluating;
                BuildStep::Evaluate
            },
        }
    }

    /// The planned application evaluated to `evaluation`; the build ends.
    pub fn on_evaluated(&mut self, evaluation: Evaluation) -> (r: BuildStep)
        requires
            old(self).wf(),
            old(self).phase is Evaluating,
        ensures
            final(self).phase is Finished,
            r is Done && build_result_view(r->Done_0) == build_outcome(
                old(self).operator,
                old(self).ops(),
                None,
                old(self).received(),
                Ok(old(self).application_type->Some_0@),
                evaluation@,
            ),
    {
        let sc = match &self.application_type {
            Some(sc) => sc.copy(),
            None => Scheme { encoded: Vec::new() },
        };
        let result = mk_sensemaker_entry(
            self.operator.copy(),
            copy_operands(&self.args),
            None,
            &self.fetched,
            Ok(sc),
            evaluation,
        );
        self.phase = Phase::Finished;
        BuildStep::Done(result)
    }
}

} // verus!
