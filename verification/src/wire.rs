//! Bidirectional mapping between the transport representation and the
//! domain model.
//!
//! The wire structs mirror the transport messages: enumerations travel
//! as integer discriminants, numeric fields as double bit patterns, and
//! optional configuration scalars use a sentinel encoding (zero or
//! negative means "unset").  `proto_to_domain_problem` converts inbound
//! wire problems to the domain model, filling defaults where structure
//! is absent; `domain_to_proto_solution` converts a solution back to
//! wire form and never fails.

use vstd::prelude::*;

use crate::fbits;
use crate::models::make_synth_name;
use crate::models::synth_name;
use crate::models::Constraint;
use crate::models::ObjectiveFunction;
use crate::models::OptimizationProblem;
use crate::models::Solution;
use crate::models::SolverConfig;
use crate::models::Variable;
use crate::values::ConstraintType;
use crate::values::OptimizationType;
use crate::values::SolutionStatus;
use crate::values::SolverBackend;
use crate::values::VariableType;

verus! {

/// Wire form of a decision variable.
#[derive(Debug, Clone, PartialEq)]
pub struct WireVariable {
    /// Discriminant of the variable kind.
    pub kind: i32,
    /// Lower bound (bit pattern).
    pub lower_bound: u64,
    /// Upper bound (bit pattern), if bounded above.
    pub upper_bound: Option<u64>,
    /// Name of the variable.
    pub name: String,
}

/// Wire form of the objective function.
#[derive(Debug, Clone, PartialEq)]
pub struct WireObjective {
    /// Discriminant of the optimization direction.
    pub kind: i32,
    /// One coefficient (bit pattern) per variable.
    pub coefficients: Vec<u64>,
    /// One name per variable (may be empty).
    pub variable_names: Vec<String>,
}

/// Wire form of a linear constraint.
#[derive(Debug, Clone, PartialEq)]
pub struct WireConstraint {
    /// Discriminant of the comparison direction.
    pub kind: i32,
    /// One coefficient (bit pattern) per variable.
    pub coefficients: Vec<u64>,
    /// Right-hand-side bound (bit pattern).
    pub bound: u64,
    /// Name of the constraint.
    pub name: String,
}

/// Wire form of the mixed-integer options block.
#[derive(Debug, Clone, PartialEq)]
pub struct WireMipOptions {
    /// Relative gap tolerance (bit pattern); zero or negative means
    /// "unset".
    pub gap_tolerance: u64,
}

/// Wire form of the solver configuration.
#[derive(Debug, Clone, PartialEq)]
pub struct WireSolverConfig {
    /// Discriminant of the requested backend.
    pub solver: i32,
    /// Time limit in seconds (bit pattern); zero or negative means
    /// "unset".
    pub time_limit: u64,
    /// Whether the engine should log its progress.
    pub verbose: bool,
    /// Mixed-integer options, if supplied.
    pub mip_options: Option<WireMipOptions>,
}

/// Wire form of a complete optimization problem.
#[derive(Debug, Clone, PartialEq)]
pub struct WireProblem {
    /// The objective, if supplied.
    pub objective: Option<WireObjective>,
    /// The constraint rows.
    pub constraints: Vec<WireConstraint>,
    /// The declared variables (may be empty).
    pub variables: Vec<WireVariable>,
    /// The solver configuration, if supplied.
    pub solver_config: Option<WireSolverConfig>,
    /// Name of the problem.
    pub problem_name: String,
    /// Description of the problem.
    pub description: String,
}

/// Wire form of the statistics block of a result.
#[derive(Debug, Clone, PartialEq)]
pub struct WireStatistics {
    /// Simplex iterations performed.
    pub simplex_iterations: u64,
    /// Branch-and-bound nodes explored.
    pub nodes_explored: u64,
    /// Wall-clock solve time in milliseconds (bit pattern).
    pub solve_time_ms: u64,
    /// Number of variables of the solved problem.
    pub num_variables: u32,
    /// Number of constraints of the solved problem.
    pub num_constraints: u32,
    /// Number of integer variables.
    pub num_integer_vars: u32,
    /// Number of binary variables.
    pub num_binary_vars: u32,
    /// Display name of the backend that solved the problem.
    pub solver_backend: String,
}

/// Wire form of the quality block of a result.
#[derive(Debug, Clone, PartialEq)]
pub struct WireQuality {
    /// Largest violation of any constraint (bit pattern).
    pub max_constraint_violation: u64,
    /// Largest relative violation (reserved; always zero here).
    pub max_relative_violation: u64,
    /// Largest integrality violation (bit pattern).
    pub max_integrality_violation: u64,
    /// Reliability score (bit pattern).
    pub reliability: u64,
}

/// Wire form of a solve result.
#[derive(Debug, Clone, PartialEq)]
pub struct WireResult {
    /// Discriminant of the solution status.
    pub status: i32,
    /// Objective value (bit pattern), if any.
    pub optimal_value: Option<u64>,
    /// Best proven bound (bit pattern), if any.
    pub best_bound: Option<u64>,
    /// Relative gap (bit pattern), if any.
    pub gap: Option<u64>,
    /// Value of each variable (bit patterns).
    pub solution_values: Vec<u64>,
    /// Dual value of each constraint, if populated.
    pub dual_values: Vec<u64>,
    /// Reduced costs (reserved; always empty here).
    pub reduced_costs: Vec<u64>,
    /// Slack values (reserved; always empty here).
    pub slack_values: Vec<u64>,
    /// Human-readable message.
    pub message: String,
    /// Statistics block.
    pub statistics: Option<WireStatistics>,
    /// Quality block.
    pub quality: Option<WireQuality>,
}

/// The wire field whose discriminant was out of range.
#[derive(Debug, Clone, Copy, PartialEq, Eq, Structural)]
pub enum EnumField {
    /// The kind of a variable.
    VariableKind,
    /// The comparison direction of a constraint.
    ConstraintComparison,
    /// The direction of optimization.
    OptimizationDirection,
}

/// Rejection of a malformed inbound wire problem.
#[derive(Debug, Clone, Copy, PartialEq, Eq, Structural)]
pub enum MappingError {
    /// The wire problem carries no objective.
    MissingObjective,
    /// An enumeration field carries an out-of-range discriminant.
    InvalidEnum(EnumField),
}

/// The variable kind encoded by a wire discriminant, if in range.
pub open spec fn spec_variable_type_of(code: i32) -> Option<VariableType> {
    if code == 0 {
        Some(VariableType::Continuous)
    } else if code == 1 {
        Some(VariableType::Integer)
    } else if code == 2 {
        Some(VariableType::Binary)
    } else {
        None
    }
}

/// The comparison direction encoded by a wire discriminant, if in
/// range.
pub open spec fn spec_constraint_type_of(code: i32) -> Option<ConstraintType> {
    if code == 0 {
        Some(ConstraintType::LessThanOrEqual)
    } else if code == 1 {
        Some(ConstraintType::Equal)
    } else if code == 2 {
        Some(ConstraintType::GreaterThanOrEqual)
    } else {
        None
    }
}

/// The optimization direction encoded by a wire discriminant, if in
/// range.
pub open spec fn spec_optimization_type_of(code: i32) -> Option<OptimizationType> {
    if code == 0 {
        Some(OptimizationType::Minimize)
    } else if code == 1 {
        Some(OptimizationType::Maximize)
    } else {
        None
    }
}

/// The backend encoded by a wire discriminant.  An out-of-range
/// discriminant resolves to the automatic choice; it is not an error.
pub open spec fn spec_backend_of(code: i32) -> SolverBackend {
    if code == 1 {
        SolverBackend::CoinCbc
    } else if code == 2 {
        SolverBackend::Highs
    } else {
        SolverBackend::Auto
    }
}

/// The wire discriminant of a solution status.
pub open spec fn spec_status_code(s: SolutionStatus) -> i32 {
    match s {
        SolutionStatus::Optimal => 0,
        SolutionStatus::Feasible => 1,
        SolutionStatus::Infeasible => 2,
        SolutionStatus::Unbounded => 3,
        SolutionStatus::TimeLimit => 4,
        SolutionStatus::IterationLimit => 5,
        SolutionStatus::NodeLimit => 6,
        SolutionStatus::Error => 7,
        SolutionStatus::Interrupted => 8,
    }
}

/// The domain variable `v` is the faithful reading of the wire
/// variable `w`: decoded kind, bounds and name copied.
pub open spec fn variable_matches_wire(v: Variable, w: WireVariable) -> bool {
    &&& spec_variable_type_of(w.kind) == Some(v.variable_type)
    &&& v.lower_bound == w.lower_bound
    &&& v.upper_bound == w.upper_bound
    &&& v.name == w.name
}

/// The domain constraint `c` is the faithful reading of the wire
/// constraint `w`: decoded comparison, coefficients, bound and name
/// copied.
pub open spec fn constraint_matches_wire(c: Constraint, w: WireConstraint) -> bool {
    &&& spec_constraint_type_of(w.kind) == Some(c.constraint_type)
    &&& c.coefficients@ == w.coefficients@
    &&& c.bound == w.bound
    &&& c.name == w.name
}

/// The domain objective `o` is the faithful reading of the wire
/// objective `w`: decoded direction, coefficients and the supplied
/// variable names copied.
pub open spec fn objective_matches_wire(o: ObjectiveFunction, w: WireObjective) -> bool {
    &&& spec_optimization_type_of(w.kind) == Some(o.optimization_type)
    &&& o.coefficients@ == w.coefficients@
    &&& o.variable_names@ == w.variable_names@
}

/// The domain configuration denoted by an optional wire configuration.
/// Absence resolves to the default; non-positive limit values mean
/// "unset"; an out-of-range backend discriminant resolves to the
/// automatic choice.
pub open spec fn spec_map_config(w: Option<WireSolverConfig>) -> SolverConfig {
    match w {
        None => SolverConfig::spec_default(),
        Some(c) => SolverConfig {
            backend: spec_backend_of(c.solver),
            time_limit: if fbits::spec_is_positive(c.time_limit) {
                Some(c.time_limit)
            } else {
                None
            },
            gap_tolerance: match c.mip_options {
                Some(m) => if fbits::spec_is_positive(m.gap_tolerance) {
                    Some(m.gap_tolerance)
                } else {
                    None
                },
                None => None,
            },
            verbose: c.verbose,
        },
    }
}

/// Whether `vars` is exactly the default-filled variable block for a
/// problem of dimensionality `n`: continuous variables named
/// positionally `x0`, `x1`, ..., bounded below by zero and unbounded
/// above.
pub open spec fn is_synth_variables(vars: Seq<Variable>, n: nat) -> bool {
    &&& vars.len() == n
    &&& forall|i: int|
        0 <= i < n ==> {
            &&& (#[trigger] vars[i]).variable_type == VariableType::Continuous
            &&& vars[i].lower_bound == fbits::ZERO_BITS
            &&& vars[i].upper_bound is None
            &&& vars[i].name@ == synth_name(i as nat)
        }
}

/// Whether every variable of the wire problem carries an in-range kind
/// discriminant.
pub open spec fn all_variable_kinds_valid(w: WireProblem) -> bool {
    forall|i: int|
        0 <= i < w.variables@.len() ==> spec_variable_type_of(
            (#[trigger] w.variables@[i]).kind,
        ) is Some
}

/// Whether every constraint of the wire problem carries an in-range
/// comparison discriminant.
pub open spec fn all_constraint_kinds_valid(w: WireProblem) -> bool {
    forall|i: int|
        0 <= i < w.constraints@.len() ==> spec_constraint_type_of(
            (#[trigger] w.constraints@[i]).kind,
        ) is Some
}

/// Whether the wire problem maps to a domain problem: an objective is
/// present and every enumeration discriminant is in range.
pub open spec fn spec_maps_to_domain(w: WireProblem) -> bool {
    &&& w.objective matches Some(o) && spec_optimization_type_of(o.kind) is Some
    &&& all_variable_kinds_valid(w)
    &&& all_constraint_kinds_valid(w)
}

/// The domain problem `p` is the faithful reading of the wire problem
/// `w`: metadata and configuration mapped, the objective decoded, the
/// variables decoded one to one — or default-filled when `w` declares
/// none — and the constraints decoded one to one.
pub open spec fn domain_matches_wire(p: OptimizationProblem, w: WireProblem) -> bool {
    &&& p.name == w.problem_name
    &&& p.description == w.description
    &&& objective_matches_wire(p.objective, w.objective->Some_0)
    &&& w.variables@.len() == 0 ==> is_synth_variables(
        p.variables@,
        w.objective->Some_0.coefficients@.len(),
    )
    &&& w.variables@.len() != 0 ==> p.variables@.len() == w.variables@.len() && (forall|i: int|
        0 <= i < w.variables@.len() ==> variable_matches_wire(
            #[trigger] p.variables@[i],
            w.variables@[i],
        ))
    &&& p.constraints@.len() == w.constraints@.len()
    &&& forall|i: int|
        0 <= i < w.constraints@.len() ==> constraint_matches_wire(
            #[trigger] p.constraints@[i],
            w.constraints@[i],
        )
    &&& p.solver_config == spec_map_config(w.solver_config)
}

/// The two wire problems carry the same components; collections are
/// compared by their contents, strings by their characters.
pub open spec fn wire_problems_equivalent(w1: WireProblem, w2: WireProblem) -> bool {
    &&& w1.objective == w2.objective
    &&& w1.variables@ == w2.variables@
    &&& w1.constraints@ == w2.constraints@
    &&& w1.solver_config == w2.solver_config
    &&& w1.problem_name@ == w2.problem_name@
    &&& w1.description@ == w2.description@
}

/// The two domain problems agree on every component; collections are
/// compared by their contents, strings by their characters.
pub open spec fn domain_problems_equivalent(
    p1: OptimizationProblem,
    p2: OptimizationProblem,
) -> bool {
    &&& p1.name@ == p2.name@
    &&& p1.description@ == p2.description@
    &&& p1.objective.optimization_type == p2.objective.optimization_type
    &&& p1.objective.coefficients@ == p2.objective.coefficients@
    &&& p1.objective.variable_names@ == p2.objective.variable_names@
    &&& p1.variables@.len() == p2.variables@.len()
    &&& forall|i: int|
        0 <= i < p1.variables@.len() ==> {
            &&& (#[trigger] p1.variables@[i]).variable_type == p2.variables@[i].variable_type
            &&& p1.variables@[i].lower_bound == p2.variables@[i].lower_bound
            &&& p1.variables@[i].upper_bound == p2.variables@[i].upper_bound
            &&& p1.variables@[i].name@ == p2.variables@[i].name@
        }
    &&& p1.constraints@.len() == p2.constraints@.len()
    &&& forall|i: int|
        0 <= i < p1.constraints@.len() ==> {
            &&& (#[trigger] p1.constraints@[i]).constraint_type
                == p2.constraints@[i].constraint_type
            &&& p1.constraints@[i].coefficients@ == p2.constraints@[i].coefficients@
            &&& p1.constraints@[i].bound == p2.constraints@[i].bound
            &&& p1.constraints@[i].name@ == p2.constraints@[i].name@
        }
    &&& p1.solver_config == p2.solver_config
}

/// Wire-to-domain mapping is deterministic in the wire components:
/// two wire problems with the same components — for instance one
/// reconstructed from a fragment stream and one submitted as a single
/// complete message — map to the same domain problem.
pub proof fn lemma_mapping_deterministic(
    p1: OptimizationProblem,
    p2: OptimizationProblem,
    w1: WireProblem,
    w2: WireProblem,
)
    requires
        spec_maps_to_domain(w1),
        domain_matches_wire(p1, w1),
        domain_matches_wire(p2, w2),
        wire_problems_equivalent(w1, w2),
    ensures
        domain_problems_equivalent(p1, p2),
{
    assert(w1.objective->Some_0 == w2.objective->Some_0);
    if w1.variables@.len() == 0 {
        assert forall|i: int| 0 <= i < p1.variables@.len() implies {
            &&& (#[trigger] p1.variables@[i]).variable_type == p2.variables@[i].variable_type
            &&& p1.variables@[i].lower_bound == p2.variables@[i].lower_bound
            &&& p1.variables@[i].upper_bound == p2.variables@[i].upper_bound
            &&& p1.variables@[i].name@ == p2.variables@[i].name@
        } by {
            assert(p1.variables@[i].name@ == synth_name(i as nat));
            assert(p2.variables@[i].name@ == synth_name(i as nat));
        }
    } else {
        assert forall|i: int| 0 <= i < p1.variables@.len() implies {
            &&& (#[trigger] p1.variables@[i]).variable_type == p2.variables@[i].variable_type
            &&& p1.variables@[i].lower_bound == p2.variables@[i].lower_bound
            &&& p1.variables@[i].upper_bound == p2.variables@[i].upper_bound
            &&& p1.variables@[i].name@ == p2.variables@[i].name@
        } by {
            assert(variable_matches_wire(p1.variables@[i], w1.variables@[i]));
            assert(variable_matches_wire(p2.variables@[i], w2.variables@[i]));
            assert(w1.variables@[i] == w2.variables@[i]);
        }
    }
    assert forall|i: int| 0 <= i < p1.constraints@.len() implies {
        &&& (#[trigger] p1.constraints@[i]).constraint_type == p2.constraints@[i].constraint_type
        &&& p1.constraints@[i].coefficients@ == p2.constraints@[i].coefficients@
        &&& p1.constraints@[i].bound == p2.constraints@[i].bound
        &&& p1.constraints@[i].name@ == p2.constraints@[i].name@
    } by {
        assert(constraint_matches_wire(p1.constraints@[i], w1.constraints@[i]));
        assert(constraint_matches_wire(p2.constraints@[i], w2.constraints@[i]));
        assert(w1.constraints@[i] == w2.constraints@[i]);
    }
}

fn copy_bits_vec(v: &Vec<u64>) -> (r: Vec<u64>)
    ensures
        r@ == v@,
{
    let mut r: Vec<u64> = Vec::new();
    let mut i: usize = 0;
    while i < v.len()
        invariant
            i <= v@.len(),
            r@ == v@.subrange(0, i as int),
        decreases v@.len() - i,
    {
        r.push(v[i]);
        proof {
            assert(r@ =~= v@.subrange(0, i + 1));
        }
        i += 1;
    }
    proof {
        assert(v@.subrange(0, v@.len() as int) =~= v@);
    }
    r
}

fn copy_string_vec(v: &Vec<String>) -> (r: Vec<String>)
    ensures
        r@ == v@,
{
    let mut r: Vec<String> = Vec::new();
    let mut i: usize = 0;
    while i < v.len()
        invariant
            i <= v@.len(),
            r@ == v@.subrange(0, i as int),
        decreases v@.len() - i,
    {
        r.push(v[i].clone());
        proof {
            assert(r@ =~= v@.subrange(0, i + 1));
        }
        i += 1;
    }
    proof {
        assert(v@.subrange(0, v@.len() as int) =~= v@);
    }
    r
}

/// Converts a wire variable to a domain variable; fails exactly when
/// the kind discriminant is out of range.
pub fn proto_to_domain_variable(w: &WireVariable) -> (r: Result<Variable, MappingError>)
    ensures
        r is Ok <==> spec_variable_type_of(w.kind) is Some,
        r matches Ok(v) ==> variable_matches_wire(v, *w),
        r is Err ==> r == Err::<Variable, MappingError>(
            MappingError::InvalidEnum(EnumField::VariableKind),
        ),
{
    let t = if w.kind == 0 {
        VariableType::Continuous
    } else if w.kind == 1 {
        VariableType::Integer
    } else if w.kind == 2 {
        VariableType::Binary
    } else {
        return Err(MappingError::InvalidEnum(EnumField::VariableKind));
    };
    Ok(
        Variable {
            variable_type: t,
            lower_bound: w.lower_bound,
            upper_bound: w.upper_bound,
            name: w.name.clone(),
        },
    )
}

/// Converts a wire constraint to a domain constraint; fails exactly
/// when the comparison discriminant is out of range.
pub fn proto_to_domain_constraint(w: &WireConstraint) -> (r: Result<Constraint, MappingError>)
    ensures
        r is Ok <==> spec_constraint_type_of(w.kind) is Some,
        r matches Ok(c) ==> constraint_matches_wire(c, *w),
        r is Err ==> r == Err::<Constraint, MappingError>(
            MappingError::InvalidEnum(EnumField::ConstraintComparison),
        ),
{
    let t = if w.kind == 0 {
        ConstraintType::LessThanOrEqual
    } else if w.kind == 1 {
        ConstraintType::Equal
    } else if w.kind == 2 {
        ConstraintType::GreaterThanOrEqual
    } else {
        return Err(MappingError::InvalidEnum(EnumField::ConstraintComparison));
    };
    Ok(
        Constraint {
            constraint_type: t,
            coefficients: copy_bits_vec(&w.coefficients),
            bound: w.bound,
            name: w.name.clone(),
        },
    )
}

/// Converts a wire objective to a domain objective; fails exactly when
/// the direction discriminant is out of range.
pub fn proto_to_domain_objective(w: &WireObjective) -> (r: Result<ObjectiveFunction, MappingError>)
    ensures
        r is Ok <==> spec_optimization_type_of(w.kind) is Some,
        r matches Ok(o) ==> objective_matches_wire(o, *w),
        r is Err ==> r == Err::<ObjectiveFunction, MappingError>(
            MappingError::InvalidEnum(EnumField::OptimizationDirection),
        ),
{
    let t = if w.kind == 0 {
        OptimizationType::Minimize
    } else if w.kind == 1 {
        OptimizationType::Maximize
    } else {
        return Err(MappingError::InvalidEnum(EnumField::OptimizationDirection));
    };
    Ok(
        ObjectiveFunction {
            optimization_type: t,
            coefficients: copy_bits_vec(&w.coefficients),
            variable_names: copy_string_vec(&w.variable_names),
        },
    )
}

/// Converts an optional wire configuration to a domain configuration;
/// never fails.
pub fn proto_to_domain_config(w: &Option<WireSolverConfig>) -> (r: SolverConfig)
    ensures
        r == spec_map_config(*w),
{
    match w {
        None => SolverConfig::default(),
        Some(c) => {
            let backend = if c.solver == 1 {
                SolverBackend::CoinCbc
            } else if c.solver == 2 {
                SolverBackend::Highs
            } else {
                SolverBackend::Auto
            };
            let time_limit = if fbits::is_positive(c.time_limit) {
                Some(c.time_limit)
            } else {
                None
            };
            let gap_tolerance = match &c.mip_options {
                Some(m) => if fbits::is_positive(m.gap_tolerance) {
                    Some(m.gap_tolerance)
                } else {
                    None
                },
                None => None,
            };
            SolverConfig { backend, time_limit, gap_tolerance, verbose: c.verbose }
        },
    }
}

/// Builds the default-filled variable block: `n` continuous variables
/// named positionally, bounded below by zero and unbounded above.
pub fn synthesize_variables(n: usize) -> (vars: Vec<Variable>)
    ensures
        is_synth_variables(vars@, n as nat),
{
    let mut vars: Vec<Variable> = Vec::new();
    let mut i: usize = 0;
    while i < n
        invariant
            i <= n,
            vars@.len() == i,
            forall|j: int|
                0 <= j < i ==> {
                    &&& (#[trigger] vars@[j]).variable_type == VariableType::Continuous
                    &&& vars@[j].lower_bound == fbits::ZERO_BITS
                    &&& vars@[j].upper_bound is None
                    &&& vars@[j].name@ == synth_name(j as nat)
                },
        decreases n - i,
    {
        vars.push(Variable::continuous(make_synth_name(i)));
        i += 1;
    }
    vars
}

/// Converts a complete wire problem to a domain problem.
///
/// Fails with `MissingObjective` when no objective is present and with
/// `InvalidEnum` when the optimization direction, a variable kind, or a
/// constraint comparison carries an out-of-range discriminant.  An
/// empty variable block is default-filled with one continuous
/// non-negative variable per objective coefficient; an absent or
/// out-of-range configuration resolves to defaults, never to an error.
pub fn proto_to_domain_problem(w: &WireProblem) -> (r: Result<OptimizationProblem, MappingError>)
    ensures
        r is Ok <==> spec_maps_to_domain(*w),
        w.objective is None ==> r == Err::<OptimizationProblem, MappingError>(
            MappingError::MissingObjective,
        ),
        w.objective matches Some(o) && spec_optimization_type_of(o.kind) is None ==> r
            == Err::<OptimizationProblem, MappingError>(
            MappingError::InvalidEnum(EnumField::OptimizationDirection),
        ),
        w.objective matches Some(o) && spec_optimization_type_of(o.kind) is Some
            && !all_variable_kinds_valid(*w) ==> r == Err::<OptimizationProblem, MappingError>(
            MappingError::InvalidEnum(EnumField::VariableKind),
        ),
        w.objective matches Some(o) && spec_optimization_type_of(o.kind) is Some
            && all_variable_kinds_valid(*w) && !all_constraint_kinds_valid(*w) ==> r
            == Err::<OptimizationProblem, MappingError>(
            MappingError::InvalidEnum(EnumField::ConstraintComparison),
        ),
        r matches Ok(p) ==> domain_matches_wire(p, *w),
{
    let objective_wire = match &w.objective {
        Some(o) => o,
        None => {
            return Err(MappingError::MissingObjective);
        },
    };
    let objective = match proto_to_domain_objective(objective_wire) {
        Ok(o) => o,
        Err(e) => {
            return Err(e);
        },
    };

    let variables: Vec<Variable> = if w.variables.len() == 0 {
        synthesize_variables(objective.num_variables())
    } else {
        let mut vars: Vec<Variable> = Vec::new();
        let mut i: usize = 0;
        while i < w.variables.len()
            invariant
                i <= w.variables@.len(),
                vars@.len() == i,
                w.objective matches Some(o) && spec_optimization_type_of(o.kind) is Some,
                forall|j: int|
                    0 <= j < i ==> variable_matches_wire(
                        #[trigger] vars@[j],
                        w.variables@[j],
                    ),
                forall|j: int|
                    0 <= j < i ==> spec_variable_type_of(
                        (#[trigger] w.variables@[j]).kind,
                    ) is Some,
            decreases w.variables@.len() - i,
        {
            match proto_to_domain_variable(&w.variables[i]) {
                Ok(v) => {
                    vars.push(v);
                },
                Err(e) => {
                    proof {
                        assert(spec_variable_type_of(
                            (w.variables@[i as int]).kind,
                        ) is None);
                        assert(!all_variable_kinds_valid(*w));
                    }
                    return Err(e);
                },
            }
            i += 1;
        }
        vars
    };
    proof {
        assert(all_variable_kinds_valid(*w));
    }

    let mut constraints: Vec<Constraint> = Vec::new();
    let mut i: usize = 0;
    while i < w.constraints.len()
        invariant
            i <= w.constraints@.len(),
            constraints@.len() == i,
            w.objective matches Some(o) && spec_optimization_type_of(o.kind) is Some,
            all_variable_kinds_valid(*w),
            forall|j: int|
                0 <= j < i ==> constraint_matches_wire(
                    #[trigger] constraints@[j],
                    w.constraints@[j],
                ),
            forall|j: int|
                0 <= j < i ==> spec_constraint_type_of(
                    (#[trigger] w.constraints@[j]).kind,
                ) is Some,
        decreases w.constraints@.len() - i,
    {
        match proto_to_domain_constraint(&w.constraints[i]) {
            Ok(c) => {
                constraints.push(c);
            },
            Err(e) => {
                proof {
                    assert(spec_constraint_type_of(
                        (w.constraints@[i as int]).kind,
                    ) is None);
                    assert(!all_constraint_kinds_valid(*w));
                }
                return Err(e);
            },
        }
        i += 1;
    }
    proof {
        assert(all_constraint_kinds_valid(*w));
    }

    let solver_config = proto_to_domain_config(&w.solver_config);

    Ok(
        OptimizationProblem {
            name: w.problem_name.clone(),
            description: w.description.clone(),
            objective,
            constraints,
            variables,
            solver_config,
        },
    )
}

/// Converts a domain solution to a wire result; total, never fails.
///
/// Copies the status (as its discriminant), the numeric solution
/// fields and the statistics verbatim, attributes the result to the
/// given backend display name, and leaves the reserved reduced-cost
/// and slack vectors empty.
pub fn domain_to_proto_solution(solution: Solution, solver_name: &str) -> (r: WireResult)
    ensures
        r.status == spec_status_code(solution.status),
        r.optimal_value == solution.optimal_value,
        r.best_bound == solution.best_bound,
        r.gap == solution.gap,
        r.solution_values == solution.variable_values,
        r.dual_values == solution.dual_values,
        r.reduced_costs@ == Seq::<u64>::empty(),
        r.slack_values@ == Seq::<u64>::empty(),
        r.message == solution.message,
        r.statistics matches Some(s) && {
            &&& s.simplex_iterations == solution.statistics.simplex_iterations
            &&& s.nodes_explored == solution.statistics.nodes_explored
            &&& s.solve_time_ms == solution.statistics.solve_time_ms
            &&& s.num_variables == solution.statistics.num_variables
            &&& s.num_constraints == solution.statistics.num_constraints
            &&& s.num_integer_vars == solution.statistics.num_integer_vars
            &&& s.num_binary_vars == solution.statistics.num_binary_vars
            &&& s.solver_backend@ == solver_name@
        },
        r.quality matches Some(q) && {
            &&& q.max_constraint_violation == solution.quality.max_constraint_violation
            &&& q.max_relative_violation == fbits::ZERO_BITS
            &&& q.max_integrality_violation == solution.quality.max_integrality_violation
            &&& q.reliability == solution.quality.reliability
        },
{
    let status = match solution.status {
        SolutionStatus::Optimal => 0,
        SolutionStatus::Feasible => 1,
        SolutionStatus::Infeasible => 2,
        SolutionStatus::Unbounded => 3,
        SolutionStatus::TimeLimit => 4,
        SolutionStatus::IterationLimit => 5,
        SolutionStatus::NodeLimit => 6,
        SolutionStatus::Error => 7,
        SolutionStatus::Interrupted => 8,
    };
    WireResult {
        status,
        optimal_value: solution.optimal_value,
        best_bound: solution.best_bound,
        gap: solution.gap,
        solution_values: solution.variable_values,
        dual_values: solution.dual_values,
        reduced_costs: Vec::new(),
        slack_values: Vec::new(),
        message: solution.message,
        statistics: Some(
            WireStatistics {
                simplex_iterations: solution.statistics.simplex_iterations,
                nodes_explored: solution.statistics.nodes_explored,
                solve_time_ms: solution.statistics.solve_time_ms,
                num_variables: solution.statistics.num_variables,
                num_constraints: solution.statistics.num_constraints,
                num_integer_vars: solution.statistics.num_integer_vars,
                num_binary_vars: solution.statistics.num_binary_vars,
                solver_backend: String::from_str(solver_name),
            },
        ),
        quality: Some(
            WireQuality {
                max_constraint_violation: solution.quality.max_constraint_violation,
                max_relative_violation: fbits::ZERO_BITS,
                max_integrality_violation: solution.quality.max_integrality_violation,
                reliability: solution.quality.reliability,
            },
        ),
    }
}

} // verus!
