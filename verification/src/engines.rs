//! The concrete solver backends.
//!
//! Each backend is an adapter for one numerical engine.  The CBC
//! backend targets an engine that only minimizes, so it compensates a
//! maximization by negating the objective coefficients; the HiGHS
//! backend hands the sense to its engine unchanged.  Both declare
//! mixed-integer support.  The engine run itself is performed by the
//! embedding program on the prepared `EngineModel`; its outcome comes
//! back through `interpret`.

use vstd::prelude::*;

use crate::backend::build_engine_model;
use crate::backend::interpret_outcome;
use crate::backend::validate_problem;
use crate::backend::EngineModel;
use crate::backend::EngineOutcome;
use crate::backend::SolverError;
use crate::backend::SolverService;
use crate::models::OptimizationProblem;
use crate::models::Solution;
use crate::validation::ValidationWarning;
use crate::values::OptimizationType;

verus! {

/// Backend adapter for the COIN-OR CBC engine.
#[derive(Debug, Clone, Copy, PartialEq, Eq, Structural)]
pub struct CoinCbcSolver;

impl CoinCbcSolver {
    /// A CBC backend adapter.
    pub fn new() -> (r: CoinCbcSolver)
        ensures
            r == CoinCbcSolver,
    {
        CoinCbcSolver
    }
}

impl Default for CoinCbcSolver {
    /// A CBC backend adapter.
    fn default() -> (r: CoinCbcSolver)
        ensures
            r == CoinCbcSolver,
    {
        CoinCbcSolver
    }
}

impl SolverService for CoinCbcSolver {
    /// "COIN-OR CBC".
    open spec fn spec_name(&self) -> Seq<char> {
        "COIN-OR CBC"@
    }

    /// CBC supports mixed-integer programming.
    open spec fn spec_supports_mip(&self) -> bool {
        true
    }

    /// The CBC engine is always asked to minimize.
    open spec fn spec_minimize(&self, p: OptimizationProblem) -> bool {
        true
    }

    /// A maximization is compensated by negating the coefficients.
    open spec fn spec_negate(&self, p: OptimizationProblem) -> bool {
        p.objective.optimization_type == OptimizationType::Maximize
    }

    fn name(&self) -> (r: &'static str) {
        proof {
            reveal_strlit("COIN-OR CBC");
        }
        "COIN-OR CBC"
    }

    fn supports_mip(&self) -> (r: bool) {
        true
    }

    fn validate(&self, p: &OptimizationProblem) -> (r: Result<
        Vec<ValidationWarning>,
        SolverError,
    >) {
        validate_problem(p)
    }

    fn prepare(&self, p: &OptimizationProblem) -> (r: Result<EngineModel, SolverError>) {
        let warnings = validate_problem(p);
        match warnings {
            Ok(_) => {
                let negate = match p.objective.optimization_type {
                    OptimizationType::Maximize => true,
                    OptimizationType::Minimize => false,
                };
                Ok(build_engine_model(p, true, negate))
            },
            Err(e) => Err(e),
        }
    }

    fn interpret(&self, p: &OptimizationProblem, outcome: EngineOutcome, solve_time_ms: u64) -> (r:
        Result<Solution, SolverError>) {
        interpret_outcome(p, outcome, solve_time_ms)
    }
}

/// Backend adapter for the HiGHS engine.
#[derive(Debug, Clone, Copy, PartialEq, Eq, Structural)]
pub struct HighsSolver;

impl HighsSolver {
    /// A HiGHS backend adapter.
    pub fn new() -> (r: HighsSolver)
        ensures
            r == HighsSolver,
    {
        HighsSolver
    }
}

impl Default for HighsSolver {
    /// A HiGHS backend adapter.
    fn default() -> (r: HighsSolver)
        ensures
            r == HighsSolver,
    {
        HighsSolver
    }
}

impl SolverService for HighsSolver {
    /// "HiGHS".
    open spec fn spec_name(&self) -> Seq<char> {
        "HiGHS"@
    }

    /// HiGHS supports mixed-integer programming.
    open spec fn spec_supports_mip(&self) -> bool {
        true
    }

    /// The sense is handed to the engine unchanged.
    open spec fn spec_minimize(&self, p: OptimizationProblem) -> bool {
        p.objective.optimization_type == OptimizationType::Minimize
    }

    /// Coefficients are handed to the engine unchanged.
    open spec fn spec_negate(&self, p: OptimizationProblem) -> bool {
        false
    }

    fn name(&self) -> (r: &'static str) {
        proof {
            reveal_strlit("HiGHS");
        }
        "HiGHS"
    }

    fn supports_mip(&self) -> (r: bool) {
        true
    }

    fn validate(&self, p: &OptimizationProblem) -> (r: Result<
        Vec<ValidationWarning>,
        SolverError,
    >) {
        validate_problem(p)
    }

    fn prepare(&self, p: &OptimizationProblem) -> (r: Result<EngineModel, SolverError>) {
        let warnings = validate_problem(p);
        match warnings {
            Ok(_) => {
                let minimize = match p.objective.optimization_type {
                    OptimizationType::Minimize => true,
                    OptimizationType::Maximize => false,
                };
                Ok(build_engine_model(p, minimize, false))
            },
            Err(e) => Err(e),
        }
    }

    fn interpret(&self, p: &OptimizationProblem, outcome: EngineOutcome, solve_time_ms: u64) -> (r:
        Result<Solution, SolverError>) {
        interpret_outcome(p, outcome, solve_time_ms)
    }
}

} // verus!
