//! The canonical domain model: variables, objective, constraints, solver
//! configuration, the aggregate problem, and the solution returned by a
//! backend.  All numeric fields hold IEEE 754 double bit patterns (see
//! `fbits`).

use vstd::prelude::*;

use crate::fbits;
use crate::numerals::dec_rep;
use crate::numerals::usize_to_string;
use crate::values::OptimizationType;
use crate::values::SolutionStatus;
use crate::values::SolverBackend;
use crate::values::ConstraintType;
use crate::values::VariableType;

verus! {

/// Decision variable of an optimization problem.
#[derive(Debug, Clone, PartialEq)]
pub struct Variable {
    /// Kind of the variable.
    pub variable_type: VariableType,
    /// Lower bound (bit pattern).
    pub lower_bound: u64,
    /// Upper bound (bit pattern), or `None` for unbounded above.
    pub upper_bound: Option<u64>,
    /// Name of the variable.
    pub name: String,
}

impl Variable {
    /// A continuous variable bounded below by zero and unbounded above.
    pub fn continuous(name: String) -> (r: Variable)
        ensures
            r == (Variable {
                variable_type: VariableType::Continuous,
                lower_bound: fbits::ZERO_BITS,
                upper_bound: None::<u64>,
                name,
            }),
    {
        Variable {
            variable_type: VariableType::Continuous,
            lower_bound: fbits::ZERO_BITS,
            upper_bound: None,
            name,
        }
    }

    /// An integer variable bounded below by zero and unbounded above.
    pub fn integer(name: String) -> (r: Variable)
        ensures
            r == (Variable {
                variable_type: VariableType::Integer,
                lower_bound: fbits::ZERO_BITS,
                upper_bound: None::<u64>,
                name,
            }),
    {
        Variable {
            variable_type: VariableType::Integer,
            lower_bound: fbits::ZERO_BITS,
            upper_bound: None,
            name,
        }
    }

    /// A binary variable, bounded to `[0, 1]`.
    pub fn binary(name: String) -> (r: Variable)
        ensures
            r == (Variable {
                variable_type: VariableType::Binary,
                lower_bound: fbits::ZERO_BITS,
                upper_bound: Some(fbits::ONE_BITS),
                name,
            }),
    {
        Variable {
            variable_type: VariableType::Binary,
            lower_bound: fbits::ZERO_BITS,
            upper_bound: Some(fbits::ONE_BITS),
            name,
        }
    }

    /// The same variable with the given bounds.
    pub fn with_bounds(self, lower: u64, upper: Option<u64>) -> (r: Variable)
        ensures
            r == (Variable { lower_bound: lower, upper_bound: upper, ..self }),
    {
        Variable { lower_bound: lower, upper_bound: upper, ..self }
    }

    /// Whether the variable is integer-constrained (integer or binary).
    pub open spec fn spec_is_integer(self) -> bool {
        self.variable_type == VariableType::Integer || self.variable_type == VariableType::Binary
    }

    /// Whether the variable is integer-constrained (integer or binary).
    pub fn is_integer(&self) -> (r: bool)
        ensures
            r == self.spec_is_integer(),
    {
        match self.variable_type {
            VariableType::Integer => true,
            VariableType::Binary => true,
            VariableType::Continuous => false,
        }
    }
}

/// The name synthesized for the variable at position `i`: `x` followed
/// by the decimal rendering of `i`.
pub open spec fn synth_name(i: nat) -> Seq<char> {
    "x"@ + dec_rep(i)
}

/// The names synthesized for `n` positional variables.
pub open spec fn synth_names(n: nat) -> Seq<Seq<char>> {
    Seq::new(n, |i: int| synth_name(i as nat))
}

/// Builds the synthesized positional name of the variable at `i`.
pub fn make_synth_name(i: usize) -> (s: String)
    ensures
        s@ == synth_name(i as nat),
{
    proof {
        reveal_strlit("x");
    }
    let mut s = String::from_str("x");
    let digits = usize_to_string(i);
    s.append(digits.as_str());
    s
}

/// Objective function to minimize or maximize.  The number of
/// coefficients defines the dimensionality `N` of the problem.
#[derive(Debug, Clone, PartialEq)]
pub struct ObjectiveFunction {
    /// Direction of optimization.
    pub optimization_type: OptimizationType,
    /// One coefficient (bit pattern) per variable.
    pub coefficients: Vec<u64>,
    /// One name per variable.
    pub variable_names: Vec<String>,
}

impl ObjectiveFunction {
    /// An objective over the given coefficients, with positional
    /// variable names `x0`, `x1`, ... synthesized.
    pub fn new(optimization_type: OptimizationType, coefficients: Vec<u64>) -> (r:
        ObjectiveFunction)
        ensures
            r.optimization_type == optimization_type,
            r.coefficients == coefficients,
            r.variable_names@.map_values(|s: String| s@) == synth_names(coefficients@.len()),
    {
        let n = coefficients.len();
        let mut variable_names: Vec<String> = Vec::new();
        let mut i: usize = 0;
        while i < n
            invariant
                i <= n,
                variable_names@.len() == i,
                forall|j: int| 0 <= j < i ==> variable_names@[j]@ == synth_name(j as nat),
            decreases n - i,
        {
            variable_names.push(make_synth_name(i));
            i += 1;
        }
        proof {
            assert(variable_names@.map_values(|s: String| s@) =~= synth_names(n as nat));
        }
        ObjectiveFunction { optimization_type, coefficients, variable_names }
    }

    /// The same objective with the given variable names.
    pub fn with_names(self, names: Vec<String>) -> (r: ObjectiveFunction)
        ensures
            r == (ObjectiveFunction { variable_names: names, ..self }),
    {
        ObjectiveFunction { variable_names: names, ..self }
    }

    /// The dimensionality `N`: the number of objective coefficients.
    pub fn num_variables(&self) -> (r: usize)
        ensures
            r == self.coefficients@.len(),
    {
        self.coefficients.len()
    }
}

/// Linear constraint over the problem's variables.
#[derive(Debug, Clone, PartialEq)]
pub struct Constraint {
    /// Comparison direction of the constraint.
    pub constraint_type: ConstraintType,
    /// One coefficient (bit pattern) per variable.
    pub coefficients: Vec<u64>,
    /// Right-hand-side bound (bit pattern).
    pub bound: u64,
    /// Name of the constraint (may be empty).
    pub name: String,
}

impl Constraint {
    /// A constraint with an empty name.
    pub fn new(constraint_type: ConstraintType, coefficients: Vec<u64>, bound: u64) -> (r:
        Constraint)
        ensures
            r.constraint_type == constraint_type,
            r.coefficients == coefficients,
            r.bound == bound,
            r.name@ == Seq::<char>::empty(),
    {
        Constraint { constraint_type, coefficients, bound, name: String::new() }
    }

    /// The same constraint with the given name.
    pub fn with_name(self, name: String) -> (r: Constraint)
        ensures
            r == (Constraint { name, ..self }),
    {
        Constraint { name, ..self }
    }

    /// The number of coefficients of this constraint's row.
    pub fn num_variables(&self) -> (r: usize)
        ensures
            r == self.coefficients@.len(),
    {
        self.coefficients.len()
    }
}

/// Solver configuration.  Absent limits are `None`; the wire layer maps
/// non-positive wire values to `None` (sentinel encoding).
#[derive(Debug, Clone, PartialEq)]
pub struct SolverConfig {
    /// Which backend to dispatch to.
    pub backend: SolverBackend,
    /// Time limit in seconds (bit pattern), if one is set.
    pub time_limit: Option<u64>,
    /// Relative gap tolerance (bit pattern), if one is set.
    pub gap_tolerance: Option<u64>,
    /// Whether the engine should log its progress.
    pub verbose: bool,
}

impl SolverConfig {
    /// The configuration used when none is supplied: automatic backend
    /// choice, no limits, non-verbose.
    pub open spec fn spec_default() -> SolverConfig {
        SolverConfig {
            backend: SolverBackend::Auto,
            time_limit: None,
            gap_tolerance: None,
            verbose: false,
        }
    }
}

impl Default for SolverConfig {
    /// The default configuration: automatic backend, no limits,
    /// non-verbose.
    fn default() -> (r: SolverConfig)
        ensures
            r == SolverConfig::spec_default(),
    {
        SolverConfig {
            backend: SolverBackend::Auto,
            time_limit: None,
            gap_tolerance: None,
            verbose: false,
        }
    }
}

/// Number of integer-constrained (integer or binary) variables in the
/// sequence.
pub open spec fn count_integer(vars: Seq<Variable>) -> nat
    decreases vars.len(),
{
    if vars.len() == 0 {
        0
    } else {
        count_integer(vars.drop_last()) + if vars.last().spec_is_integer() {
            1nat
        } else {
            0nat
        }
    }
}

/// Number of variables of exactly the given kind in the sequence.
pub open spec fn count_of_type(vars: Seq<Variable>, t: VariableType) -> nat
    decreases vars.len(),
{
    if vars.len() == 0 {
        0
    } else {
        count_of_type(vars.drop_last(), t) + if vars.last().variable_type == t {
            1nat
        } else {
            0nat
        }
    }
}

/// The integer-constrained variables are exactly the integer ones and
/// the binary ones.
pub proof fn lemma_count_split(vars: Seq<Variable>)
    ensures
        count_integer(vars) == count_of_type(vars, VariableType::Integer) + count_of_type(
            vars,
            VariableType::Binary,
        ),
    decreases vars.len(),
{
    if vars.len() > 0 {
        lemma_count_split(vars.drop_last());
    }
}

/// Complete optimization problem: the aggregate root.
///
/// `variables` is either empty (defaults are synthesized by the wire
/// layer) or aligned positionally with `objective.coefficients`;
/// validation enforces the alignment.
#[derive(Debug, Clone, PartialEq)]
pub struct OptimizationProblem {
    /// Name of the problem (may be empty).
    pub name: String,
    /// Description of the problem (may be empty).
    pub description: String,
    /// The objective function.
    pub objective: ObjectiveFunction,
    /// The constraint rows.
    pub constraints: Vec<Constraint>,
    /// The declared variables (empty, or one per objective coefficient).
    pub variables: Vec<Variable>,
    /// The requested solver configuration.
    pub solver_config: SolverConfig,
}

impl OptimizationProblem {
    /// A problem over the given objective, with no name, no
    /// constraints, no declared variables, and the default
    /// configuration.
    pub fn new(objective: ObjectiveFunction) -> (r: OptimizationProblem)
        ensures
            r.name@ == Seq::<char>::empty(),
            r.description@ == Seq::<char>::empty(),
            r.objective == objective,
            r.constraints@ == Seq::<Constraint>::empty(),
            r.variables@ == Seq::<Variable>::empty(),
            r.solver_config == SolverConfig::spec_default(),
    {
        OptimizationProblem {
            name: String::new(),
            description: String::new(),
            objective,
            constraints: Vec::new(),
            variables: Vec::new(),
            solver_config: SolverConfig::default(),
        }
    }

    /// The same problem with the given name.
    pub fn with_name(self, name: String) -> (r: OptimizationProblem)
        ensures
            r == (OptimizationProblem { name, ..self }),
    {
        OptimizationProblem { name, ..self }
    }

    /// The same problem with the given description.
    pub fn with_description(self, description: String) -> (r: OptimizationProblem)
        ensures
            r == (OptimizationProblem { description, ..self }),
    {
        OptimizationProblem { description, ..self }
    }

    /// The same problem with the constraint appended.
    pub fn add_constraint(self, constraint: Constraint) -> (r: OptimizationProblem)
        ensures
            r.constraints@ == self.constraints@.push(constraint),
            r.name == self.name,
            r.description == self.description,
            r.objective == self.objective,
            r.variables == self.variables,
            r.solver_config == self.solver_config,
    {
        let mut s = self;
        s.constraints.push(constraint);
        s
    }

    /// The same problem with the given variables.
    pub fn with_variables(self, variables: Vec<Variable>) -> (r: OptimizationProblem)
        ensures
            r == (OptimizationProblem { variables, ..self }),
    {
        OptimizationProblem { variables, ..self }
    }

    /// The same problem with the given configuration.
    pub fn with_config(self, config: SolverConfig) -> (r: OptimizationProblem)
        ensures
            r == (OptimizationProblem { solver_config: config, ..self }),
    {
        OptimizationProblem { solver_config: config, ..self }
    }

    /// The dimensionality `N` of the problem: the number of objective
    /// coefficients.
    pub open spec fn spec_num_variables(self) -> nat {
        self.objective.coefficients@.len()
    }

    /// The dimensionality `N` of the problem.
    pub fn num_variables(&self) -> (r: usize)
        ensures
            r == self.spec_num_variables(),
    {
        self.objective.num_variables()
    }

    /// The number of integer-constrained variables.
    pub fn num_integer_variables(&self) -> (r: usize)
        ensures
            r == count_integer(self.variables@),
    {
        let n = self.variables.len();
        let mut count: usize = 0;
        let mut i: usize = 0;
        while i < n
            invariant
                i <= n,
                n == self.variables@.len(),
                count == count_integer(self.variables@.subrange(0, i as int)),
                count <= i,
            decreases n - i,
        {
            proof {
                assert(self.variables@.subrange(0, i + 1).drop_last() =~= self.variables@.subrange(
                    0,
                    i as int,
                ));
                assert(self.variables@.subrange(0, i + 1).last() == self.variables@[i as int]);
            }
            if self.variables[i].is_integer() {
                count += 1;
            }
            i += 1;
        }
        proof {
            assert(self.variables@.subrange(0, n as int) =~= self.variables@);
        }
        count
    }

    /// Whether the problem has any integer-constrained variable.
    pub fn is_mixed_integer(&self) -> (r: bool)
        ensures
            r == (count_integer(self.variables@) > 0),
    {
        self.num_integer_variables() > 0
    }
}

/// Counters describing a solve run; populated by the backend and passed
/// through unmodified.
#[derive(Debug, Clone, PartialEq)]
pub struct SolverStatistics {
    /// Simplex iterations performed.
    pub simplex_iterations: u64,
    /// Branch-and-bound nodes explored.
    pub nodes_explored: u64,
    /// Wall-clock solve time in milliseconds (bit pattern).
    pub solve_time_ms: u64,
    /// Number of variables of the solved problem.
    pub num_variables: u32,
    /// Number of constraints of the solved problem.
    pub num_constraints: u32,
    /// Number of integer variables (binary ones not included).
    pub num_integer_vars: u32,
    /// Number of binary variables.
    pub num_binary_vars: u32,
}

impl SolverStatistics {
    /// All counters zero.
    pub open spec fn spec_default() -> SolverStatistics {
        SolverStatistics {
            simplex_iterations: 0,
            nodes_explored: 0,
            solve_time_ms: fbits::ZERO_BITS,
            num_variables: 0,
            num_constraints: 0,
            num_integer_vars: 0,
            num_binary_vars: 0,
        }
    }
}

impl Default for SolverStatistics {
    /// All counters zero.
    fn default() -> (r: SolverStatistics)
        ensures
            r == SolverStatistics::spec_default(),
    {
        SolverStatistics {
            simplex_iterations: 0,
            nodes_explored: 0,
            solve_time_ms: fbits::ZERO_BITS,
            num_variables: 0,
            num_constraints: 0,
            num_integer_vars: 0,
            num_binary_vars: 0,
        }
    }
}

/// Diagnostic ratios of a returned solution; populated by the backend
/// and passed through unmodified.
#[derive(Debug, Clone, PartialEq)]
pub struct SolutionQuality {
    /// Largest violation of any constraint (bit pattern).
    pub max_constraint_violation: u64,
    /// Largest deviation of an integer variable from an integer value
    /// (bit pattern).
    pub max_integrality_violation: u64,
    /// Reliability score in `[0, 1]` (bit pattern).
    pub reliability: u64,
}

impl SolutionQuality {
    /// All ratios zero.
    pub open spec fn spec_default() -> SolutionQuality {
        SolutionQuality {
            max_constraint_violation: fbits::ZERO_BITS,
            max_integrality_violation: fbits::ZERO_BITS,
            reliability: fbits::ZERO_BITS,
        }
    }
}

impl Default for SolutionQuality {
    /// All ratios zero.
    fn default() -> (r: SolutionQuality)
        ensures
            r == SolutionQuality::spec_default(),
    {
        SolutionQuality {
            max_constraint_violation: fbits::ZERO_BITS,
            max_integrality_violation: fbits::ZERO_BITS,
            reliability: fbits::ZERO_BITS,
        }
    }
}

/// Solution to an optimization problem, produced by a backend.
#[derive(Debug, Clone, PartialEq)]
pub struct Solution {
    /// Terminal status of the solve.
    pub status: SolutionStatus,
    /// Objective value of the returned assignment (bit pattern), if any.
    pub optimal_value: Option<u64>,
    /// Best proven bound on the objective (bit pattern), if any.
    pub best_bound: Option<u64>,
    /// Relative gap between value and bound (bit pattern), if any.
    pub gap: Option<u64>,
    /// Value of each variable (bit patterns), positionally aligned with
    /// the problem's variables.
    pub variable_values: Vec<u64>,
    /// Dual value of each constraint, if the backend populates them.
    pub dual_values: Vec<u64>,
    /// Human-readable message.
    pub message: String,
    /// Counters describing the solve run.
    pub statistics: SolverStatistics,
    /// Diagnostic ratios of the solution.
    pub quality: SolutionQuality,
}

impl Solution {
    /// A solution carrying only a status and a message.
    pub fn new(status: SolutionStatus, message: String) -> (r: Solution)
        ensures
            r.status == status,
            r.message == message,
            r.optimal_value == None::<u64>,
            r.best_bound == None::<u64>,
            r.gap == None::<u64>,
            r.variable_values@ == Seq::<u64>::empty(),
            r.dual_values@ == Seq::<u64>::empty(),
            r.statistics == SolverStatistics::spec_default(),
            r.quality == SolutionQuality::spec_default(),
    {
        Solution {
            status,
            optimal_value: None,
            best_bound: None,
            gap: None,
            variable_values: Vec::new(),
            dual_values: Vec::new(),
            message,
            statistics: SolverStatistics::default(),
            quality: SolutionQuality::default(),
        }
    }

    /// An optimal solution: status `Optimal`, the given objective value
    /// as both value and bound, a zero gap, and the given assignment.
    pub fn optimal(value: u64, variable_values: Vec<u64>) -> (r: Solution)
        ensures
            r.status == SolutionStatus::Optimal,
            r.optimal_value == Some(value),
            r.best_bound == Some(value),
            r.gap == Some(fbits::ZERO_BITS),
            r.variable_values == variable_values,
            r.dual_values@ == Seq::<u64>::empty(),
            r.message@ == "Optimal solution found"@,
            r.statistics == SolverStatistics::spec_default(),
            r.quality == SolutionQuality::spec_default(),
    {
        Solution {
            status: SolutionStatus::Optimal,
            optimal_value: Some(value),
            best_bound: Some(value),
            gap: Some(fbits::ZERO_BITS),
            variable_values,
            dual_values: Vec::new(),
            message: String::from_str("Optimal solution found"),
            statistics: SolverStatistics::default(),
            quality: SolutionQuality::default(),
        }
    }

    /// The same solution with the given statistics.
    pub fn with_statistics(self, statistics: SolverStatistics) -> (r: Solution)
        ensures
            r == (Solution { statistics, ..self }),
    {
        Solution { statistics, ..self }
    }

    /// The same solution with the given quality block.
    pub fn with_quality(self, quality: SolutionQuality) -> (r: Solution)
        ensures
            r == (Solution { quality, ..self }),
    {
        Solution { quality, ..self }
    }

    /// Whether the status is `Optimal`.
    pub fn is_optimal(&self) -> (r: bool)
        ensures
            r == (self.status == SolutionStatus::Optimal),
    {
        self.status == SolutionStatus::Optimal
    }

    /// Whether the solution carries a usable assignment: status
    /// `Optimal` or `Feasible`.
    pub fn is_feasible(&self) -> (r: bool)
        ensures
            r == (self.status == SolutionStatus::Optimal || self.status
                == SolutionStatus::Feasible),
    {
        match self.status {
            SolutionStatus::Optimal => true,
            SolutionStatus::Feasible => true,
            _ => false,
        }
    }
}

} // verus!
