//! The request-facing service layer.
//!
//! One solve request flows: assemble the wire problem (from one
//! message or a completed chunk stream), map it to the domain model,
//! dispatch to a backend, validate and prepare the engine model, run
//! the engine (an external collaborator), interpret its outcome, and
//! map the solution back to wire form.  Every step but the engine run
//! itself is a function of this crate.  This module adds the
//! validation-only entry point with its advisory difficulty estimate,
//! and the static catalog of available backends.

use vstd::prelude::*;

use crate::backend::validate_problem;
use crate::models::count_integer;
use crate::models::OptimizationProblem;
use crate::validation::spec_errors;
use crate::validation::spec_is_valid;
use crate::validation::spec_warnings;
use crate::validation::ValidationError;
use crate::validation::ValidationWarning;
use crate::validation::DEFAULT_INTEGER_WARNING_THRESHOLD;

verus! {

/// Advisory difficulty estimate as an exact rational in `[0, 1]`:
/// `numerator / denominator`.  Not used for dispatch.
#[derive(Debug, Clone, Copy, PartialEq, Eq, Structural)]
pub struct DifficultyScore {
    /// Numerator of the score.
    pub numerator: u64,
    /// Denominator of the score; always positive.
    pub denominator: u64,
}

/// The difficulty estimate of a problem: for a mixed-integer problem,
/// the integer-variable count over one thousand, capped at one; for a
/// purely continuous problem, the variable count over ten thousand,
/// capped at one half.
pub open spec fn spec_difficulty(p: OptimizationProblem) -> DifficultyScore {
    let ni = count_integer(p.variables@);
    let nv = p.objective.coefficients@.len();
    if ni > 0 {
        DifficultyScore {
            numerator: if ni > 1000 {
                1000
            } else {
                ni as u64
            },
            denominator: 1000,
        }
    } else {
        DifficultyScore {
            numerator: if nv > 5000 {
                5000
            } else {
                nv as u64
            },
            denominator: 10000,
        }
    }
}

/// Estimates the difficulty of a problem.  The score never exceeds
/// one: the numerator is bounded by the denominator.
pub fn estimate_difficulty(p: &OptimizationProblem) -> (r: DifficultyScore)
    ensures
        r == spec_difficulty(*p),
        r.numerator <= r.denominator,
        r.denominator > 0,
{
    let ni = p.num_integer_variables();
    if ni > 0 {
        let numerator: u64 = if ni > 1000 {
            1000
        } else {
            ni as u64
        };
        DifficultyScore { numerator, denominator: 1000 }
    } else {
        let nv = p.num_variables();
        let numerator: u64 = if nv > 5000 {
            5000
        } else {
            nv as u64
        };
        DifficultyScore { numerator, denominator: 10000 }
    }
}

/// Outcome of the validation-only entry point.
#[derive(Debug, Clone, PartialEq)]
pub struct ValidationReport {
    /// Whether the problem passed every structural check.
    pub is_valid: bool,
    /// The violated invariants, in checking order; empty when valid.
    pub errors: Vec<ValidationError>,
    /// The advisory warnings; only reported for a valid problem.
    pub warnings: Vec<ValidationWarning>,
    /// The problem's dimensionality `N`.
    pub num_variables: u32,
    /// The number of constraints.
    pub num_constraints: u32,
    /// The number of integer-constrained variables.
    pub num_integer_vars: u32,
    /// The advisory difficulty estimate.
    pub estimated_difficulty: DifficultyScore,
}

/// One backend of the static catalog, with its declared capabilities.
#[derive(Debug, Clone, PartialEq)]
pub struct SolverInfo {
    /// Display name of the backend.
    pub name: String,
    /// Version range of the engine.
    pub version: String,
    /// Whether the backend handles mixed-integer programs.
    pub supports_mip: bool,
    /// Whether the backend handles linear programs.
    pub supports_lp: bool,
    /// Free-text capability labels.
    pub capabilities: Vec<String>,
}

/// The request-facing solver service.
#[derive(Debug, Clone, Copy, PartialEq, Eq, Structural)]
pub struct GrpcLpSolverService;

impl GrpcLpSolverService {
    /// A solver service.
    pub fn new() -> (r: GrpcLpSolverService)
        ensures
            r == GrpcLpSolverService,
    {
        GrpcLpSolverService
    }

    /// Runs the validation-only entry point on a domain problem:
    /// every structural check of the validation engine, the advisory
    /// warnings (only when valid, as solving would proceed), the
    /// problem's counts, and the difficulty estimate.
    pub fn validate_problem(&self, p: &OptimizationProblem) -> (r: ValidationReport)
        ensures
            r.is_valid <==> spec_is_valid(*p),
            r.errors@ == spec_errors(*p),
            r.is_valid ==> r.warnings@ == spec_warnings(
                *p,
                DEFAULT_INTEGER_WARNING_THRESHOLD as nat,
            ),
            !r.is_valid ==> r.warnings@ == Seq::<ValidationWarning>::empty(),
            r.num_variables == p.objective.coefficients@.len() as u32,
            r.num_constraints == p.constraints@.len() as u32,
            r.num_integer_vars == count_integer(p.variables@) as u32,
            r.estimated_difficulty == spec_difficulty(*p),
    {
        let errors = crate::validation::collect_errors(p);
        proof {
            crate::validation::lemma_valid_iff_no_errors(*p);
        }
        let is_valid = errors.len() == 0;
        let warnings = if is_valid {
            crate::validation::collect_warnings(p, DEFAULT_INTEGER_WARNING_THRESHOLD)
        } else {
            Vec::new()
        };
        ValidationReport {
            is_valid,
            errors,
            warnings,
            num_variables: #[verifier::truncate] (p.num_variables() as u32),
            num_constraints: #[verifier::truncate] (p.constraints.len() as u32),
            num_integer_vars: #[verifier::truncate] (p.num_integer_variables() as u32),
            estimated_difficulty: estimate_difficulty(p),
        }
    }

    /// Validates a domain problem as a backend would before solving:
    /// warnings on success, the collected violations on failure.
    pub fn validate_only(&self, p: &OptimizationProblem) -> (r: Result<
        Vec<ValidationWarning>,
        crate::backend::SolverError,
    >)
        ensures
            r is Ok <==> spec_is_valid(*p),
            r matches Ok(w) ==> w@ == spec_warnings(
                *p,
                DEFAULT_INTEGER_WARNING_THRESHOLD as nat,
            ),
            r matches Err(e) ==> e matches crate::backend::SolverError::InvalidProblem(v) && v@
                == spec_errors(*p),
    {
        validate_problem(p)
    }
}

impl Default for GrpcLpSolverService {
    /// A solver service.
    fn default() -> (r: GrpcLpSolverService)
        ensures
            r == GrpcLpSolverService,
    {
        GrpcLpSolverService
    }
}

/// The static catalog of available backends: process-wide, read-only
/// constant data.  Both backends declare linear and mixed-integer
/// support.
pub fn get_available_solvers() -> (r: Vec<SolverInfo>)
    ensures
        r@.len() == 2,
        r@[0].name@ == "COIN-OR CBC"@,
        r@[0].version@ == "2.10+"@,
        r@[0].supports_mip,
        r@[0].supports_lp,
        r@[0].capabilities@.len() == 4,
        r@[0].capabilities@[0]@ == "Mixed-Integer Programming"@,
        r@[0].capabilities@[1]@ == "Branch and Bound"@,
        r@[0].capabilities@[2]@ == "Cutting Planes"@,
        r@[0].capabilities@[3]@ == "Primal/Dual Simplex"@,
        r@[1].name@ == "HiGHS"@,
        r@[1].version@ == "1.7+"@,
        r@[1].supports_mip,
        r@[1].supports_lp,
        r@[1].capabilities@.len() == 5,
        r@[1].capabilities@[0]@ == "Mixed-Integer Programming"@,
        r@[1].capabilities@[1]@ == "Linear Programming"@,
        r@[1].capabilities@[2]@ == "Primal/Dual Simplex"@,
        r@[1].capabilities@[3]@ == "Interior Point Method"@,
        r@[1].capabilities@[4]@ == "Presolve"@,
{
    let mut cbc_capabilities: Vec<String> = Vec::new();
    cbc_capabilities.push(String::from_str("Mixed-Integer Programming"));
    cbc_capabilities.push(String::from_str("Branch and Bound"));
    cbc_capabilities.push(String::from_str("Cutting Planes"));
    cbc_capabilities.push(String::from_str("Primal/Dual Simplex"));
    let cbc = SolverInfo {
        name: String::from_str("COIN-OR CBC"),
        version: String::from_str("2.10+"),
        supports_mip: true,
        supports_lp: true,
        capabilities: cbc_capabilities,
    };
    let mut highs_capabilities: Vec<String> = Vec::new();
    highs_capabilities.push(String::from_str("Mixed-Integer Programming"));
    highs_capabilities.push(String::from_str("Linear Programming"));
    highs_capabilities.push(String::from_str("Primal/Dual Simplex"));
    highs_capabilities.push(String::from_str("Interior Point Method"));
    highs_capabilities.push(String::from_str("Presolve"));
    let highs = SolverInfo {
        name: String::from_str("HiGHS"),
        version: String::from_str("1.7+"),
        supports_mip: true,
        supports_lp: true,
        capabilities: highs_capabilities,
    };
    let mut r: Vec<SolverInfo> = Vec::new();
    r.push(cbc);
    r.push(highs);
    r
}

} // verus!
