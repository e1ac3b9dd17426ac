//! The solver backend contract.
//!
//! A backend translates a validated domain problem into an exact
//! engine model (columns, rows, direction — all numerics as double bit
//! patterns), hands it to its numerical engine, and interprets the
//! engine's terminal outcome as a canonical `Solution`.  The engine
//! call itself is an external collaborator performed by the embedding
//! program: a backend here exposes `prepare` (validate and build the
//! engine model) and `interpret` (map the engine outcome back), plus
//! its name and capability declaration.

use vstd::prelude::*;

use crate::fbits;
use crate::models::count_of_type;
use crate::models::OptimizationProblem;
use crate::models::Solution;
use crate::models::SolutionQuality;
use crate::models::SolverStatistics;
use crate::models::Variable;
use crate::validation::collect_errors;
use crate::validation::collect_warnings;
use crate::validation::spec_errors;
use crate::validation::spec_is_valid;
use crate::validation::spec_warnings;
use crate::validation::ValidationError;
use crate::validation::ValidationWarning;
use crate::validation::DEFAULT_INTEGER_WARNING_THRESHOLD;
use crate::values::ConstraintType;
use crate::values::SolutionStatus;
use crate::values::VariableType;

verus! {

/// Failure of the solving pipeline.
#[derive(Debug, Clone, PartialEq)]
pub enum SolverError {
    /// Validation failed; the collected violations, in checking order.
    /// The caller must correct the input; a retry cannot succeed.
    InvalidProblem(Vec<ValidationError>),
    /// The requested backend cannot handle this problem shape; the
    /// display name of the backend.
    SolverNotAvailable(String),
    /// The engine reported an internal error; the engine-provided
    /// detail.  Not retried automatically.
    ExecutionFailed(String),
}

/// One column of an engine model.
#[derive(Debug, Clone, Copy, PartialEq, Eq, Structural)]
pub struct EngineColumn {
    /// Whether the column is integer-constrained.
    pub is_integer: bool,
    /// Lower bound (bit pattern).
    pub lower: u64,
    /// Upper bound (bit pattern), or `None` for unbounded above.
    pub upper: Option<u64>,
    /// Objective coefficient of the column (bit pattern), already
    /// transformed for the engine's sense convention.
    pub objective: u64,
}

/// One row of an engine model: a linear constraint over the columns.
#[derive(Debug, Clone, PartialEq)]
pub struct EngineRow {
    /// Comparison direction of the row.
    pub comparison: ConstraintType,
    /// Right-hand-side bound (bit pattern).
    pub bound: u64,
    /// The non-zero terms of the row: column index and coefficient
    /// (bit pattern), in column order.
    pub terms: Vec<(usize, u64)>,
}

/// A complete engine model: what a backend hands to its engine.
#[derive(Debug, Clone, PartialEq)]
pub struct EngineModel {
    /// Whether the engine is asked to minimize (as opposed to
    /// maximize) the objective.
    pub minimize: bool,
    /// The columns, positionally aligned with the problem's variables.
    pub columns: Vec<EngineColumn>,
    /// The rows, positionally aligned with the problem's constraints.
    pub rows: Vec<EngineRow>,
}

/// Terminal outcome reported by a numerical engine.
#[derive(Debug, Clone, PartialEq)]
pub enum EngineOutcome {
    /// The engine proved optimality; the objective value of the
    /// returned assignment (in the problem's original sense, bit
    /// pattern) and the column values (bit patterns).
    Optimal {
        /// Objective value of the assignment.
        objective: u64,
        /// Value of each column.
        values: Vec<u64>,
    },
    /// The engine proved that no assignment satisfies the rows.
    Infeasible,
    /// The engine proved the objective unbounded.
    Unbounded,
    /// Any other terminal engine status; never coerced to a success.
    Other {
        /// Engine-provided detail.
        detail: String,
    },
}

/// The objective coefficient handed to the engine for column `i`:
/// the problem's coefficient (zero beyond the objective's length),
/// negated when the backend compensates a maximization by negation.
pub open spec fn spec_engine_objective_coefficient(
    p: OptimizationProblem,
    i: int,
    negate: bool,
) -> u64 {
    let raw = if 0 <= i < p.objective.coefficients@.len() {
        p.objective.coefficients@[i]
    } else {
        fbits::ZERO_BITS
    };
    if negate {
        fbits::spec_negate(raw)
    } else {
        raw
    }
}

/// The column built for a declared variable.
pub open spec fn spec_column_for_variable(v: Variable, objective: u64) -> EngineColumn {
    EngineColumn {
        is_integer: v.spec_is_integer(),
        lower: v.lower_bound,
        upper: v.upper_bound,
        objective,
    }
}

/// Whether `cols` is exactly the column block for problem `p`: one
/// column per declared variable, or — when none is declared — one
/// default continuous non-negative column per objective coefficient.
pub open spec fn columns_match(cols: Seq<EngineColumn>, p: OptimizationProblem, negate: bool) -> bool {
    if p.variables@.len() > 0 {
        &&& cols.len() == p.variables@.len()
        &&& forall|i: int|
            0 <= i < cols.len() ==> #[trigger] cols[i] == spec_column_for_variable(
                p.variables@[i],
                spec_engine_objective_coefficient(p, i, negate),
            )
    } else {
        &&& cols.len() == p.objective.coefficients@.len()
        &&& forall|i: int|
            0 <= i < cols.len() ==> #[trigger] cols[i] == (EngineColumn {
                is_integer: false,
                lower: fbits::ZERO_BITS,
                upper: None,
                objective: spec_engine_objective_coefficient(p, i, negate),
            })
    }
}

/// The non-zero terms of a row over `ncols` columns: column index and
/// coefficient, in column order; zero coefficients and indices beyond
/// the columns are dropped.
pub open spec fn row_terms(coeffs: Seq<u64>, ncols: nat) -> Seq<(usize, u64)>
    decreases coeffs.len(),
{
    if coeffs.len() == 0 {
        Seq::<(usize, u64)>::empty()
    } else {
        row_terms(coeffs.drop_last(), ncols) + if !fbits::spec_is_zero(coeffs.last())
            && coeffs.len() - 1 < ncols {
            seq![(((coeffs.len() - 1) as usize), coeffs.last())]
        } else {
            Seq::<(usize, u64)>::empty()
        }
    }
}

/// The terms of a row are exactly the non-zero coefficients within
/// the columns: every term points at an in-range column and carries
/// that column's (non-zero) coefficient, and every in-range non-zero
/// coefficient appears as a term.
pub proof fn lemma_row_terms_exact(coeffs: Seq<u64>, ncols: nat)
    requires
        coeffs.len() <= usize::MAX,
    ensures
        forall|k: int|
            0 <= k < row_terms(coeffs, ncols).len() ==> {
                &&& (#[trigger] row_terms(coeffs, ncols)[k]).0 < coeffs.len()
                &&& row_terms(coeffs, ncols)[k].0 < ncols
                &&& coeffs[row_terms(coeffs, ncols)[k].0 as int] == row_terms(coeffs, ncols)[k].1
                &&& !fbits::spec_is_zero(row_terms(coeffs, ncols)[k].1)
            },
        forall|j: int|
            0 <= j < coeffs.len() && j < ncols && !fbits::spec_is_zero(#[trigger] coeffs[j])
                ==> row_terms(coeffs, ncols).contains(((j as usize), coeffs[j])),
    decreases coeffs.len(),
{
    if coeffs.len() > 0 {
        lemma_row_terms_exact(coeffs.drop_last(), ncols);
        let prev = row_terms(coeffs.drop_last(), ncols);
        let cur = row_terms(coeffs, ncols);
        assert(forall|k: int| 0 <= k < prev.len() ==> cur[k] == #[trigger] prev[k]);
        assert(forall|j: int|
            0 <= j < coeffs.len() - 1 ==> coeffs.drop_last()[j] == #[trigger] coeffs[j]);
        assert forall|j: int|
            0 <= j < coeffs.len() && j < ncols && !fbits::spec_is_zero(#[trigger] coeffs[j])
                implies cur.contains(((j as usize), coeffs[j])) by {
            if j == coeffs.len() - 1 {
                assert(cur[cur.len() - 1] == ((j as usize), coeffs[j]));
            } else {
                assert(prev.contains(((j as usize), coeffs[j])));
                let k = choose|k: int| 0 <= k < prev.len() && prev[k] == ((j as usize), coeffs[j]);
                assert(cur[k] == ((j as usize), coeffs[j]));
            }
        }
    }
}

/// Whether `rows` is exactly the row block for problem `p` over
/// `ncols` columns.
pub open spec fn rows_match(rows: Seq<EngineRow>, p: OptimizationProblem, ncols: nat) -> bool {
    &&& rows.len() == p.constraints@.len()
    &&& forall|i: int|
        0 <= i < rows.len() ==> {
            &&& (#[trigger] rows[i]).comparison == p.constraints@[i].constraint_type
            &&& rows[i].bound == p.constraints@[i].bound
            &&& rows[i].terms@ == row_terms(p.constraints@[i].coefficients@, ncols)
        }
}

/// Whether `m` is exactly the engine model that a backend with the
/// given sense convention builds for `p`.
pub open spec fn is_model_for(
    m: EngineModel,
    p: OptimizationProblem,
    minimize: bool,
    negate: bool,
) -> bool {
    &&& m.minimize == minimize
    &&& columns_match(m.columns@, p, negate)
    &&& rows_match(m.rows@, p, m.columns@.len())
}

/// The statistics block describing a solve run of problem `p` that
/// took `solve_time_ms` (bit pattern) milliseconds.
pub open spec fn spec_run_statistics(p: OptimizationProblem, solve_time_ms: u64) -> SolverStatistics {
    SolverStatistics {
        simplex_iterations: 0,
        nodes_explored: 0,
        solve_time_ms,
        num_variables: p.objective.coefficients@.len() as u32,
        num_constraints: p.constraints@.len() as u32,
        num_integer_vars: count_of_type(p.variables@, VariableType::Integer) as u32,
        num_binary_vars: count_of_type(p.variables@, VariableType::Binary) as u32,
    }
}

/// Validates a problem: returns the advisory warnings on success, or
/// `InvalidProblem` carrying every violated invariant.
pub fn validate_problem(p: &OptimizationProblem) -> (r: Result<Vec<ValidationWarning>, SolverError>)
    ensures
        r is Ok <==> spec_is_valid(*p),
        r matches Ok(w) ==> w@ == spec_warnings(
            *p,
            DEFAULT_INTEGER_WARNING_THRESHOLD as nat,
        ),
        r matches Err(e) ==> e matches SolverError::InvalidProblem(v) && v@ == spec_errors(*p),
{
    let errors = collect_errors(p);
    proof {
        crate::validation::lemma_valid_iff_no_errors(*p);
    }
    if errors.len() == 0 {
        Ok(collect_warnings(p, DEFAULT_INTEGER_WARNING_THRESHOLD))
    } else {
        Err(SolverError::InvalidProblem(errors))
    }
}

fn count_variables_of_type(vars: &Vec<Variable>, t: VariableType) -> (r: usize)
    ensures
        r == count_of_type(vars@, t),
{
    let n = vars.len();
    let mut count: usize = 0;
    let mut i: usize = 0;
    while i < n
        invariant
            i <= n,
            n == vars@.len(),
            count == count_of_type(vars@.subrange(0, i as int), t),
            count <= i,
        decreases n - i,
    {
        proof {
            assert(vars@.subrange(0, i + 1).drop_last() =~= vars@.subrange(0, i as int));
            assert(vars@.subrange(0, i + 1).last() == vars@[i as int]);
        }
        let matches_t = match (vars[i].variable_type, t) {
            (VariableType::Continuous, VariableType::Continuous) => true,
            (VariableType::Integer, VariableType::Integer) => true,
            (VariableType::Binary, VariableType::Binary) => true,
            _ => false,
        };
        if matches_t {
            count += 1;
        }
        i += 1;
    }
    proof {
        assert(vars@.subrange(0, n as int) =~= vars@);
    }
    count
}

/// Builds the statistics block for a solve run of `p` that took
/// `solve_time_ms` (bit pattern) milliseconds.
pub fn run_statistics(p: &OptimizationProblem, solve_time_ms: u64) -> (r: SolverStatistics)
    ensures
        r == spec_run_statistics(*p, solve_time_ms),
{
    SolverStatistics {
        simplex_iterations: 0,
        nodes_explored: 0,
        solve_time_ms,
        num_variables: #[verifier::truncate] (p.num_variables() as u32),
        num_constraints: #[verifier::truncate] (p.constraints.len() as u32),
        num_integer_vars: #[verifier::truncate] (count_variables_of_type(
            &p.variables,
            VariableType::Integer,
        ) as u32),
        num_binary_vars: #[verifier::truncate] (count_variables_of_type(
            &p.variables,
            VariableType::Binary,
        ) as u32),
    }
}

/// Builds the engine model for a valid problem, with the given sense
/// convention: `negate` asks for negated objective coefficients on a
/// maximization (for an engine that only minimizes), `minimize` is the
/// sense handed to the engine.
pub fn build_engine_model(p: &OptimizationProblem, minimize: bool, negate: bool) -> (m: EngineModel)
    requires
        spec_is_valid(*p),
    ensures
        is_model_for(m, *p, minimize, negate),
{
    let n = p.num_variables();
    let mut columns: Vec<EngineColumn> = Vec::new();
    if p.variables.len() > 0 {
        let mut i: usize = 0;
        while i < p.variables.len()
            invariant
                i <= p.variables@.len(),
                columns@.len() == i,
                p.variables@.len() == p.objective.coefficients@.len(),
                forall|j: int|
                    0 <= j < i ==> #[trigger] columns@[j] == spec_column_for_variable(
                        p.variables@[j],
                        spec_engine_objective_coefficient(*p, j, negate),
                    ),
            decreases p.variables@.len() - i,
        {
            let raw = p.objective.coefficients[i];
            let objective = if negate {
                fbits::negate(raw)
            } else {
                raw
            };
            let v = &p.variables[i];
            columns.push(
                EngineColumn {
                    is_integer: v.is_integer(),
                    lower: v.lower_bound,
                    upper: v.upper_bound,
                    objective,
                },
            );
            i += 1;
        }
    } else {
        let mut i: usize = 0;
        while i < n
            invariant
                i <= n,
                n == p.objective.coefficients@.len(),
                columns@.len() == i,
                forall|j: int|
                    0 <= j < i ==> #[trigger] columns@[j] == (EngineColumn {
                        is_integer: false,
                        lower: fbits::ZERO_BITS,
                        upper: None,
                        objective: spec_engine_objective_coefficient(*p, j, negate),
                    }),
            decreases n - i,
        {
            let raw = p.objective.coefficients[i];
            let objective = if negate {
                fbits::negate(raw)
            } else {
                raw
            };
            columns.push(
                EngineColumn { is_integer: false, lower: fbits::ZERO_BITS, upper: None, objective },
            );
            i += 1;
        }
    }

    let ncols = columns.len();
    let mut rows: Vec<EngineRow> = Vec::new();
    let mut i: usize = 0;
    while i < p.constraints.len()
        invariant
            i <= p.constraints@.len(),
            rows@.len() == i,
            forall|j: int|
                0 <= j < i ==> {
                    &&& (#[trigger] rows@[j]).comparison == p.constraints@[j].constraint_type
                    &&& rows@[j].bound == p.constraints@[j].bound
                    &&& rows@[j].terms@ == row_terms(
                        p.constraints@[j].coefficients@,
                        ncols as nat,
                    )
                },
        decreases p.constraints@.len() - i,
    {
        let c = &p.constraints[i];
        let mut terms: Vec<(usize, u64)> = Vec::new();
        let mut j: usize = 0;
        while j < c.coefficients.len()
            invariant
                j <= c.coefficients@.len(),
                terms@ == row_terms(c.coefficients@.subrange(0, j as int), ncols as nat),
            decreases c.coefficients@.len() - j,
        {
            proof {
                assert(c.coefficients@.subrange(0, j + 1).drop_last() =~= c.coefficients@.subrange(
                    0,
                    j as int,
                ));
                assert(c.coefficients@.subrange(0, j + 1).last() == c.coefficients@[j as int]);
            }
            let coeff = c.coefficients[j];
            if !fbits::is_zero(coeff) && j < ncols {
                terms.push((j, coeff));
                proof {
                    assert(terms@ =~= row_terms(
                        c.coefficients@.subrange(0, j as int),
                        ncols as nat,
                    ).push((j, coeff)));
                }
            }
            j += 1;
        }
        proof {
            assert(c.coefficients@.subrange(0, c.coefficients@.len() as int) =~= c.coefficients@);
        }
        rows.push(EngineRow { comparison: c.constraint_type, bound: c.bound, terms });
        i += 1;
    }

    EngineModel { minimize, columns, rows }
}

/// Interprets a terminal engine outcome for problem `p` as a canonical
/// solution.
///
/// A proven optimum becomes an `Optimal` solution carrying the
/// assignment and objective value; proven infeasibility and
/// unboundedness become solutions with the matching status; any other
/// terminal engine status becomes `ExecutionFailed` with the engine's
/// detail, never a success.
pub fn interpret_outcome(
    p: &OptimizationProblem,
    outcome: EngineOutcome,
    solve_time_ms: u64,
) -> (r: Result<Solution, SolverError>)
    ensures
        outcome matches EngineOutcome::Optimal { objective, values } ==> (r matches Ok(s) && {
            &&& s.status == SolutionStatus::Optimal
            &&& s.optimal_value == Some(objective)
            &&& s.best_bound == Some(objective)
            &&& s.gap == Some(fbits::ZERO_BITS)
            &&& s.variable_values == values
            &&& s.dual_values@ == Seq::<u64>::empty()
            &&& s.message@ == "Optimal solution found for '"@ + p.name@ + "'"@
            &&& s.statistics == spec_run_statistics(*p, solve_time_ms)
            &&& s.quality == SolutionQuality::spec_default()
        }),
        outcome is Infeasible ==> (r matches Ok(s) && {
            &&& s.status == SolutionStatus::Infeasible
            &&& s.optimal_value is None
            &&& s.best_bound is None
            &&& s.gap is None
            &&& s.variable_values@ == Seq::<u64>::empty()
            &&& s.dual_values@ == Seq::<u64>::empty()
            &&& s.message@ == "Problem is infeasible: no solution satisfies all constraints"@
            &&& s.statistics == spec_run_statistics(*p, solve_time_ms)
            &&& s.quality == SolutionQuality::spec_default()
        }),
        outcome is Unbounded ==> (r matches Ok(s) && {
            &&& s.status == SolutionStatus::Unbounded
            &&& s.optimal_value is None
            &&& s.best_bound is None
            &&& s.gap is None
            &&& s.variable_values@ == Seq::<u64>::empty()
            &&& s.dual_values@ == Seq::<u64>::empty()
            &&& s.message@ == "Problem is unbounded: objective can be improved infinitely"@
            &&& s.statistics == spec_run_statistics(*p, solve_time_ms)
            &&& s.quality == SolutionQuality::spec_default()
        }),
        outcome matches EngineOutcome::Other { detail } ==> (r matches Err(e) && e matches
            SolverError::ExecutionFailed(d) && d == detail),
{
    let statistics = run_statistics(p, solve_time_ms);
    match outcome {
        EngineOutcome::Optimal { objective, values } => {
            proof {
                reveal_strlit("Optimal solution found for '");
                reveal_strlit("'");
            }
            let mut message = String::from_str("Optimal solution found for '");
            message.append(p.name.as_str());
            message.append("'");
            let mut s = Solution::optimal(objective, values);
            s.message = message;
            s.statistics = statistics;
            Ok(s)
        },
        EngineOutcome::Infeasible => {
            let s = Solution::new(
                SolutionStatus::Infeasible,
                String::from_str("Problem is infeasible: no solution satisfies all constraints"),
            );
            Ok(s.with_statistics(statistics))
        },
        EngineOutcome::Unbounded => {
            let s = Solution::new(
                SolutionStatus::Unbounded,
                String::from_str("Problem is unbounded: objective can be improved infinitely"),
            );
            Ok(s.with_statistics(statistics))
        },
        EngineOutcome::Other { detail } => Err(SolverError::ExecutionFailed(detail)),
    }
}

/// The contract shared by every solver backend: a display name, a
/// capability declaration, validation, engine-model construction, and
/// outcome interpretation.  A full solve is `prepare`, then the
/// engine's own run on the model, then `interpret` on its outcome.
pub trait SolverService: Sized {
    /// The display name of the backend.
    spec fn spec_name(&self) -> Seq<char>;

    /// Whether the backend supports mixed-integer programming.
    spec fn spec_supports_mip(&self) -> bool;

    /// The sense the backend hands to its engine for problem `p`.
    spec fn spec_minimize(&self, p: OptimizationProblem) -> bool;

    /// Whether the backend negates objective coefficients for `p` to
    /// compensate its engine's sense convention.
    spec fn spec_negate(&self, p: OptimizationProblem) -> bool;

    /// The display name of the backend.
    fn name(&self) -> (r: &'static str)
        ensures
            r@ == self.spec_name(),
    ;

    /// Whether the backend supports mixed-integer programming.
    fn supports_mip(&self) -> (r: bool)
        ensures
            r == self.spec_supports_mip(),
    ;

    /// Validates a problem without solving it; returns the advisory
    /// warnings on success.
    fn validate(&self, p: &OptimizationProblem) -> (r: Result<Vec<ValidationWarning>, SolverError>)
        ensures
            r is Ok <==> spec_is_valid(*p),
            r matches Ok(w) ==> w@ == spec_warnings(
                *p,
                DEFAULT_INTEGER_WARNING_THRESHOLD as nat,
            ),
            r matches Err(e) ==> e matches SolverError::InvalidProblem(v) && v@ == spec_errors(*p),
    ;

    /// Validates `p` and builds the backend's engine model for it;
    /// fails with `InvalidProblem` exactly when validation fails.
    fn prepare(&self, p: &OptimizationProblem) -> (r: Result<EngineModel, SolverError>)
        ensures
            r is Ok <==> spec_is_valid(*p),
            r matches Ok(m) ==> is_model_for(m, *p, self.spec_minimize(*p), self.spec_negate(*p)),
            r matches Err(e) ==> e matches SolverError::InvalidProblem(v) && v@ == spec_errors(*p),
    ;

    /// Interprets a terminal engine outcome as a canonical solution,
    /// as `interpret_outcome` does.
    fn interpret(&self, p: &OptimizationProblem, outcome: EngineOutcome, solve_time_ms: u64) -> (r:
        Result<Solution, SolverError>)
        ensures
            outcome matches EngineOutcome::Optimal { objective, values } ==> (r matches Ok(s) && {
                &&& s.status == SolutionStatus::Optimal
                &&& s.optimal_value == Some(objective)
                &&& s.best_bound == Some(objective)
                &&& s.gap == Some(fbits::ZERO_BITS)
                &&& s.variable_values == values
                &&& s.dual_values@ == Seq::<u64>::empty()
                &&& s.message@ == "Optimal solution found for '"@ + p.name@ + "'"@
                &&& s.statistics == spec_run_statistics(*p, solve_time_ms)
                &&& s.quality == SolutionQuality::spec_default()
            }),
            outcome is Infeasible ==> (r matches Ok(s) && {
                &&& s.status == SolutionStatus::Infeasible
                &&& s.optimal_value is None
                &&& s.best_bound is None
                &&& s.gap is None
                &&& s.variable_values@ == Seq::<u64>::empty()
                &&& s.dual_values@ == Seq::<u64>::empty()
                &&& s.message@ == "Problem is infeasible: no solution satisfies all constraints"@
                &&& s.statistics == spec_run_statistics(*p, solve_time_ms)
                &&& s.quality == SolutionQuality::spec_default()
            }),
            outcome is Unbounded ==> (r matches Ok(s) && {
                &&& s.status == SolutionStatus::Unbounded
                &&& s.optimal_value is None
                &&& s.best_bound is None
                &&& s.gap is None
                &&& s.variable_values@ == Seq::<u64>::empty()
                &&& s.dual_values@ == Seq::<u64>::empty()
                &&& s.message@ == "Problem is unbounded: objective can be improved infinitely"@
                &&& s.statistics == spec_run_statistics(*p, solve_time_ms)
                &&& s.quality == SolutionQuality::spec_default()
            }),
            outcome matches EngineOutcome::Other { detail } ==> (r matches Err(e) && e matches
                SolverError::ExecutionFailed(d) && d == detail),
    ;
}

/// Checks that the backend can handle the problem's shape: a
/// mixed-integer problem demands a backend that supports it.
pub fn check_capability<S: SolverService>(solver: &S, p: &OptimizationProblem) -> (r: Result<
    (),
    SolverError,
>)
    ensures
        r is Ok <==> (solver.spec_supports_mip() || count_of_type(
            p.variables@,
            VariableType::Integer,
        ) + count_of_type(p.variables@, VariableType::Binary) == 0),
        r matches Err(e) ==> e matches SolverError::SolverNotAvailable(d) && d@
            == solver.spec_name(),
{
    proof {
        crate::models::lemma_count_split(p.variables@);
    }
    if solver.supports_mip() || !p.is_mixed_integer() {
        Ok(())
    } else {
        Err(SolverError::SolverNotAvailable(String::from_str(solver.name())))
    }
}

} // verus!
