//! Dispatch of a problem to a concrete solver backend.
//!
//! Dispatch is a pure mapping from the configured backend choice to a
//! backend variant: the automatic choice resolves to a fixed default
//! engine, named backends resolve to their adapters.  Dispatch does
//! not inspect the problem's shape.

use vstd::prelude::*;

use crate::backend::EngineModel;
use crate::backend::EngineOutcome;
use crate::backend::SolverError;
use crate::backend::SolverService;
use crate::engines::CoinCbcSolver;
use crate::engines::HighsSolver;
use crate::models::OptimizationProblem;
use crate::models::Solution;
use crate::validation::ValidationWarning;
use crate::values::SolverBackend;

verus! {

/// One of the concrete solver backends, chosen by dispatch.
#[derive(Debug, Clone, Copy, PartialEq, Eq, Structural)]
pub enum DispatchedSolver {
    /// The CBC backend adapter.
    CoinCbc(CoinCbcSolver),
    /// The HiGHS backend adapter.
    Highs(HighsSolver),
}

/// The backend variant that a configured backend choice resolves to:
/// the automatic choice and the explicit HiGHS choice resolve to
/// HiGHS, the explicit CBC choice to CBC.
pub open spec fn spec_dispatch(backend: SolverBackend) -> DispatchedSolver {
    match backend {
        SolverBackend::Auto => DispatchedSolver::Highs(HighsSolver),
        SolverBackend::CoinCbc => DispatchedSolver::CoinCbc(CoinCbcSolver),
        SolverBackend::Highs => DispatchedSolver::Highs(HighsSolver),
    }
}

impl SolverService for DispatchedSolver {
    /// The display name of the dispatched backend.
    open spec fn spec_name(&self) -> Seq<char> {
        match self {
            DispatchedSolver::CoinCbc(s) => s.spec_name(),
            DispatchedSolver::Highs(s) => s.spec_name(),
        }
    }

    /// The capability of the dispatched backend.
    open spec fn spec_supports_mip(&self) -> bool {
        match self {
            DispatchedSolver::CoinCbc(s) => s.spec_supports_mip(),
            DispatchedSolver::Highs(s) => s.spec_supports_mip(),
        }
    }

    /// The sense convention of the dispatched backend.
    open spec fn spec_minimize(&self, p: OptimizationProblem) -> bool {
        match self {
            DispatchedSolver::CoinCbc(s) => s.spec_minimize(p),
            DispatchedSolver::Highs(s) => s.spec_minimize(p),
        }
    }

    /// The coefficient convention of the dispatched backend.
    open spec fn spec_negate(&self, p: OptimizationProblem) -> bool {
        match self {
            DispatchedSolver::CoinCbc(s) => s.spec_negate(p),
            DispatchedSolver::Highs(s) => s.spec_negate(p),
        }
    }

    fn name(&self) -> (r: &'static str) {
        match self {
            DispatchedSolver::CoinCbc(s) => s.name(),
            DispatchedSolver::Highs(s) => s.name(),
        }
    }

    fn supports_mip(&self) -> (r: bool) {
        match self {
            DispatchedSolver::CoinCbc(s) => s.supports_mip(),
            DispatchedSolver::Highs(s) => s.supports_mip(),
        }
    }

    fn validate(&self, p: &OptimizationProblem) -> (r: Result<
        Vec<ValidationWarning>,
        SolverError,
    >) {
        match self {
            DispatchedSolver::CoinCbc(s) => s.validate(p),
            DispatchedSolver::Highs(s) => s.validate(p),
        }
    }

    fn prepare(&self, p: &OptimizationProblem) -> (r: Result<EngineModel, SolverError>) {
        match self {
            DispatchedSolver::CoinCbc(s) => s.prepare(p),
            DispatchedSolver::Highs(s) => s.prepare(p),
        }
    }

    fn interpret(&self, p: &OptimizationProblem, outcome: EngineOutcome, solve_time_ms: u64) -> (r:
        Result<Solution, SolverError>) {
        match self {
            DispatchedSolver::CoinCbc(s) => s.interpret(p, outcome, solve_time_ms),
            DispatchedSolver::Highs(s) => s.interpret(p, outcome, solve_time_ms),
        }
    }
}

/// Creates solver backends from configuration.
pub struct SolverFactory;

impl SolverFactory {
    /// The backend for a problem, resolved from its configuration.
    pub fn create_solver(problem: &OptimizationProblem) -> (r: DispatchedSolver)
        ensures
            r == spec_dispatch(problem.solver_config.backend),
    {
        Self::create_from_backend(problem.solver_config.backend, problem.is_mixed_integer())
    }

    /// The backend for an explicit choice.  The problem shape is not
    /// inspected: the same backend serves linear and mixed-integer
    /// problems.
    pub fn create_from_backend(backend: SolverBackend, _is_mip: bool) -> (r: DispatchedSolver)
        ensures
            r == spec_dispatch(backend),
    {
        match backend {
            SolverBackend::Auto => DispatchedSolver::Highs(HighsSolver::new()),
            SolverBackend::CoinCbc => DispatchedSolver::CoinCbc(CoinCbcSolver::new()),
            SolverBackend::Highs => DispatchedSolver::Highs(HighsSolver::new()),
        }
    }

    /// The default backend (HiGHS).
    pub fn default_solver() -> (r: DispatchedSolver)
        ensures
            r == DispatchedSolver::Highs(HighsSolver),
    {
        DispatchedSolver::Highs(HighsSolver::new())
    }
}

} // verus!
