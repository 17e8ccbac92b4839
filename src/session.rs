use vstd::prelude::*;
use crate::engine::{
    attributes_result, gradual_next, len_defined, objects_left, performance_result, step_attributes,
    steps_ahead,
};
use crate::error::BridgeError;
use crate::model::ScoreState;
use crate::performance::PerformanceResult;

verus! {

/// A gradual calculation: a cursor over the hit objects of one map. Each step
/// processes one object; once the objects run out it stays exhausted. The
/// calculator is stepped only while it counts objects left, which keeps its count
/// from going below zero.
pub struct GradualSession {
    calculator: rosu_pp::GradualPerformance,
    exhausted: bool,
}

impl GradualSession {
    #[verifier::type_invariant]
    spec fn inv(&self) -> bool {
        !self.exhausted ==> len_defined(self.calculator) && steps_ahead(self.calculator)
            <= objects_left(self.calculator)
    }

    /// How many more steps will succeed.
    pub closed spec fn steps_left(&self) -> nat {
        if self.exhausted {
            0
        } else {
            steps_ahead(self.calculator)
        }
    }

    /// The answer of the next step for the score state `s`, while steps are left.
    pub closed spec fn next_result(&self, s: ScoreState) -> PerformanceResult {
        attributes_result(step_attributes(self.calculator, s)->0)
    }

    pub fn new(calculator: rosu_pp::GradualPerformance) -> (r: GradualSession)
        requires
            len_defined(calculator),
            steps_ahead(calculator) <= objects_left(calculator),
        ensures
            r.steps_left() == steps_ahead(calculator),
    {
        GradualSession { calculator, exhausted: false }
    }

    /// How many more hit objects the calculator counts; an exhausted session has none.
    pub fn remaining(&self) -> (r: usize)
        ensures
            r >= self.steps_left(),
    {
        proof {
            use_type_invariant(self);
        }
        if self.exhausted {
            0
        } else {
            self.calculator.len()
        }
    }

    /// Processes the next hit object for the score reached so far, and hands the
    /// session back. A step needs a score; a score whose counts rosu_pp cannot add
    /// up safely is refused as an internal error. Otherwise the step succeeds
    /// exactly while steps are left, uses one up, and answers the performance so
    /// far; with none left it answers `Exhausted`, and keeps doing so.
    pub fn advance(self, score: Option<ScoreState>) -> (r: (GradualSession, Result<PerformanceResult, BridgeError>))
        ensures
            score is None ==> r.1 == Err::<PerformanceResult, BridgeError>(
                BridgeError::MissingScoreState,
            ) && r.0.steps_left() == self.steps_left(),
            score matches Some(s) ==> {
                &&& !s.spec_counts_bounded() ==> r.1 == Err::<PerformanceResult, BridgeError>(
                    BridgeError::InternalError,
                ) && r.0.steps_left() == self.steps_left()
                &&& s.spec_counts_bounded() && self.steps_left() > 0 ==> r.1 == Ok::<
                    PerformanceResult,
                    BridgeError,
                >(self.next_result(s)) && r.0.steps_left() == self.steps_left() - 1
                &&& s.spec_counts_bounded() && self.steps_left() == 0 ==> r.1 == Err::<
                    PerformanceResult,
                    BridgeError,
                >(BridgeError::Exhausted) && r.0.steps_left() == 0
            },
    {
        proof {
            use_type_invariant(&self);
        }
        let state = match score {
            Some(s) => s,
            None => return (self, Err(BridgeError::MissingScoreState)),
        };
        if !state.counts_bounded() {
            return (self, Err(BridgeError::InternalError));
        }
        if self.exhausted {
            return (self, Err(BridgeError::Exhausted));
        }
        if self.calculator.len() == 0 {
            let calculator = self.calculator;
            return (GradualSession { calculator, exhausted: true }, Err(BridgeError::Exhausted));
        }
        let mut calculator = self.calculator;
        match gradual_next(&mut calculator, &state) {
            Some(attrs) => (
                GradualSession { calculator, exhausted: false },
                Ok(performance_result(&attrs)),
            ),
            None => (GradualSession { calculator, exhausted: true }, Err(BridgeError::Exhausted)),
        }
    }
}

/// How many steps of a run got a result.
pub open spec fn successes(outcomes: Seq<bool>) -> nat
    decreases outcomes.len(),
{
    if outcomes.len() == 0 {
        0
    } else {
        successes(outcomes.drop_last()) + if outcomes.last() {
            1nat
        } else {
            0nat
        }
    }
}

/// A run of `advance` calls on a session that starts with `n` steps left, where
/// `left[i]` is what is left before call `i`: by the facts `advance` ensures, a
/// success uses up one step and a failure none, so at most `n` calls succeed, and
/// the successes and the steps still left never add up to more than `n`.
pub proof fn lemma_session_steps_bounded(n: nat, left: Seq<nat>, outcomes: Seq<bool>)
    requires
        left.len() == outcomes.len() + 1,
        left[0] == n,
        forall|i: int|
            0 <= i < outcomes.len() ==> (#[trigger] outcomes[i] ==> left[i] > 0 && left[i + 1]
                == left[i] - 1),
        forall|i: int| 0 <= i < outcomes.len() ==> (!#[trigger] outcomes[i] ==> left[i + 1] <= left[i]),
    ensures
        successes(outcomes) + left[outcomes.len() as int] <= n,
        successes(outcomes) <= n,
    decreases outcomes.len(),
{
    if outcomes.len() > 0 {
        let k = (outcomes.len() - 1) as int;
        lemma_session_steps_bounded(n, left.drop_last(), outcomes.drop_last());
        assert(left.drop_last()[k] == left[k]);
        assert(outcomes[k] == outcomes.last());
    }
}

} // verus!
