//! A verified assembly, validation, and dispatch core for linear and
//! mixed-integer optimization requests.
//!
//! The crate owns the canonical domain model of an optimization problem,
//! the structural validation rules over it, the bidirectional mapping
//! between the wire representation and the domain model, the chunked
//! reconstruction of streamed problems, and the dispatch of a problem to
//! one of several solver backends.  The numerical engines themselves are
//! external collaborators: each backend here produces an exact engine
//! model (over IEEE 754 bit patterns) for its engine and interprets the
//! engine's outcome, while the engine call is performed by the embedding
//! program.

pub mod assembly;
pub mod backend;
pub mod engines;
pub mod factory;
pub mod fbits;
pub mod models;
pub mod numerals;
pub mod service;
pub mod validation;
pub mod values;
pub mod wire;

pub use backend::{EngineModel, EngineOutcome, SolverError, SolverService};
pub use engines::{CoinCbcSolver, HighsSolver};
pub use factory::{DispatchedSolver, SolverFactory};
pub use models::{
    Constraint, ObjectiveFunction, OptimizationProblem, Solution, SolverConfig, Variable,
};
pub use service::GrpcLpSolverService;
pub use values::{
    ConstraintType, OptimizationType, SolutionStatus, SolverBackend, VariableType,
};
