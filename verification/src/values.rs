//! Closed enumerations for variable kinds, constraint comparisons,
//! optimization direction, solution status, and backend selection.

use vstd::prelude::*;

verus! {

/// Kind of a decision variable.
#[derive(Debug, Clone, Copy, PartialEq, Eq, Structural)]
pub enum VariableType {
    /// Continuous real value.
    Continuous,
    /// Integer value.
    Integer,
    /// Binary value, conventionally bounded to `[0, 1]`.
    Binary,
}

/// Comparison direction of a linear constraint.
#[derive(Debug, Clone, Copy, PartialEq, Eq, Structural)]
pub enum ConstraintType {
    /// Row value must be less than or equal to the bound.
    LessThanOrEqual,
    /// Row value must equal the bound.
    Equal,
    /// Row value must be greater than or equal to the bound.
    GreaterThanOrEqual,
}

/// Direction of optimization.
#[derive(Debug, Clone, Copy, PartialEq, Eq, Structural)]
pub enum OptimizationType {
    /// Minimize the objective function.
    Minimize,
    /// Maximize the objective function.
    Maximize,
}

/// Terminal status of a solve attempt.
#[derive(Debug, Clone, Copy, PartialEq, Eq, Structural)]
pub enum SolutionStatus {
    /// An optimal solution was found.
    Optimal,
    /// A feasible but not necessarily optimal solution was found.
    Feasible,
    /// No assignment satisfies all constraints.
    Infeasible,
    /// The objective can be improved without bound.
    Unbounded,
    /// The configured time limit was reached.
    TimeLimit,
    /// The iteration limit was reached.
    IterationLimit,
    /// The node limit was reached.
    NodeLimit,
    /// The engine reported an error.
    Error,
    /// The solve was interrupted.
    Interrupted,
}

impl SolutionStatus {
    /// Human-readable name of the status.
    pub fn display_name(&self) -> (r: String)
        ensures
            r@ == self.spec_display_name(),
    {
        proof {
            reveal_strlit("Optimal");
            reveal_strlit("Feasible");
            reveal_strlit("Infeasible");
            reveal_strlit("Unbounded");
            reveal_strlit("Time Limit Reached");
            reveal_strlit("Iteration Limit Reached");
            reveal_strlit("Node Limit Reached");
            reveal_strlit("Error");
            reveal_strlit("Interrupted");
        }
        match self {
            SolutionStatus::Optimal => String::from_str("Optimal"),
            SolutionStatus::Feasible => String::from_str("Feasible"),
            SolutionStatus::Infeasible => String::from_str("Infeasible"),
            SolutionStatus::Unbounded => String::from_str("Unbounded"),
            SolutionStatus::TimeLimit => String::from_str("Time Limit Reached"),
            SolutionStatus::IterationLimit => String::from_str("Iteration Limit Reached"),
            SolutionStatus::NodeLimit => String::from_str("Node Limit Reached"),
            SolutionStatus::Error => String::from_str("Error"),
            SolutionStatus::Interrupted => String::from_str("Interrupted"),
        }
    }

    /// The sequence of characters that `display_name` returns.
    pub open spec fn spec_display_name(self) -> Seq<char> {
        match self {
            SolutionStatus::Optimal => "Optimal"@,
            SolutionStatus::Feasible => "Feasible"@,
            SolutionStatus::Infeasible => "Infeasible"@,
            SolutionStatus::Unbounded => "Unbounded"@,
            SolutionStatus::TimeLimit => "Time Limit Reached"@,
            SolutionStatus::IterationLimit => "Iteration Limit Reached"@,
            SolutionStatus::NodeLimit => "Node Limit Reached"@,
            SolutionStatus::Error => "Error"@,
            SolutionStatus::Interrupted => "Interrupted"@,
        }
    }
}

/// Requested solver backend.
#[derive(Debug, Clone, Copy, PartialEq, Eq, Structural)]
pub enum SolverBackend {
    /// Let the dispatcher pick the default engine.
    Auto,
    /// The COIN-OR CBC engine.
    CoinCbc,
    /// The HiGHS engine.
    Highs,
}

impl SolverBackend {
    /// Human-readable name of the backend choice.
    pub fn display_name(&self) -> (r: String)
        ensures
            r@ == self.spec_display_name(),
    {
        proof {
            reveal_strlit("Auto");
            reveal_strlit("COIN-OR CBC");
            reveal_strlit("HiGHS");
        }
        match self {
            SolverBackend::Auto => String::from_str("Auto"),
            SolverBackend::CoinCbc => String::from_str("COIN-OR CBC"),
            SolverBackend::Highs => String::from_str("HiGHS"),
        }
    }

    /// The sequence of characters that `display_name` returns.
    pub open spec fn spec_display_name(self) -> Seq<char> {
        match self {
            SolverBackend::Auto => "Auto"@,
            SolverBackend::CoinCbc => "COIN-OR CBC"@,
            SolverBackend::Highs => "HiGHS"@,
        }
    }
}

} // verus!
