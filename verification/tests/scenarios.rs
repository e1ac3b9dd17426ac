//! End-to-end solve scenarios: the library prepares the engine model
//! and interprets the outcome; the numerical engine is good_lp's
//! pure-Rust microlp backend, driven the way an embedding program
//! would drive it.

use good_lp::{variable, Expression, ProblemVariables, ResolutionError, Solution as _, SolverModel};
use letsopt::backend::{EngineModel, EngineOutcome, SolverService};
use letsopt::engines::{CoinCbcSolver, HighsSolver};
use letsopt::models::{Constraint, ObjectiveFunction, OptimizationProblem, Variable};
use letsopt::values::{ConstraintType, OptimizationType, SolutionStatus};

fn bits(x: f64) -> u64 {
    x.to_bits()
}

/// What the engine reported: the raw column values, or a terminal
/// condition.
enum EngineRun {
    Solved(Vec<f64>),
    Infeasible,
    Unbounded,
    Other(String),
}

/// Runs an engine model on good_lp's microlp backend, as the
/// embedding program does: bit patterns become doubles at this
/// boundary and come back as bit patterns.
fn run_microlp(model: &EngineModel) -> EngineRun {
    let mut vars = ProblemVariables::new();
    let mut handles = Vec::new();
    for col in &model.columns {
        let mut def = variable().min(f64::from_bits(col.lower));
        if let Some(u) = col.upper {
            def = def.max(f64::from_bits(u));
        }
        if col.is_integer {
            def = def.integer();
        }
        handles.push(vars.add(def));
    }
    let mut objective = Expression::default();
    for (i, col) in model.columns.iter().enumerate() {
        let c = f64::from_bits(col.objective);
        if c != 0.0 {
            objective += c * handles[i];
        }
    }
    let unsolved = if model.minimize {
        vars.minimise(objective)
    } else {
        vars.maximise(objective)
    };
    let mut lp = unsolved.using(good_lp::microlp);
    for row in &model.rows {
        let mut lhs = Expression::default();
        for &(index, coeff) in &row.terms {
            lhs += f64::from_bits(coeff) * handles[index];
        }
        let bound = f64::from_bits(row.bound);
        let constraint = match row.comparison {
            ConstraintType::LessThanOrEqual => lhs.leq(bound),
            ConstraintType::Equal => lhs.eq(bound),
            ConstraintType::GreaterThanOrEqual => lhs.geq(bound),
        };
        lp = lp.with(constraint);
    }
    match lp.solve() {
        Ok(solution) => {
            EngineRun::Solved(handles.iter().map(|&h| solution.value(h)).collect())
        }
        Err(ResolutionError::Infeasible) => EngineRun::Infeasible,
        Err(ResolutionError::Unbounded) => EngineRun::Unbounded,
        Err(e) => EngineRun::Other(format!("{e:?}")),
    }
}

/// Drives one full solve the way the embedding program does:
/// prepare the engine model, run the engine, recompute the objective
/// value in the problem's original sense, and interpret the outcome.
fn solve_with<S: SolverService>(
    solver: &S,
    problem: &OptimizationProblem,
) -> Result<letsopt::models::Solution, letsopt::backend::SolverError> {
    let model = solver.prepare(problem)?;
    let outcome = match run_microlp(&model) {
        EngineRun::Solved(values) => {
            let mut objective = 0.0f64;
            for (i, &coeff) in problem.objective.coefficients.iter().enumerate() {
                if i < values.len() {
                    objective += f64::from_bits(coeff) * values[i];
                }
            }
            EngineOutcome::Optimal {
                objective: objective.to_bits(),
                values: values.iter().map(|v| v.to_bits()).collect(),
            }
        }
        EngineRun::Infeasible => EngineOutcome::Infeasible,
        EngineRun::Unbounded => EngineOutcome::Unbounded,
        EngineRun::Other(detail) => EngineOutcome::Other { detail },
    };
    solver.interpret(problem, outcome, bits(0.0))
}

fn production_problem() -> OptimizationProblem {
    let objective = ObjectiveFunction::new(OptimizationType::Maximize, vec![bits(30.0), bits(50.0)]);
    OptimizationProblem::new(objective)
        .with_name("production".to_string())
        .add_constraint(Constraint::new(
            ConstraintType::LessThanOrEqual,
            vec![bits(2.0), bits(3.0)],
            bits(100.0),
        ))
        .add_constraint(Constraint::new(
            ConstraintType::LessThanOrEqual,
            vec![bits(1.0), bits(1.0)],
            bits(40.0),
        ))
        .with_variables(vec![
            Variable::continuous("a".to_string()),
            Variable::continuous("b".to_string()),
        ])
}

/// The exact optimum of the production problem, checked by hand over
/// the feasible region's vertices: the origin gives 0, (40, 0) gives
/// 1200, (20, 20) gives 1600, and (0, 100/3) gives 5000/3.
fn production_optimum() -> f64 {
    5000.0 / 3.0
}

#[test]
fn production_planning_reaches_optimum() {
    let solution = solve_with(&HighsSolver::new(), &production_problem()).expect("solves");
    assert_eq!(solution.status, SolutionStatus::Optimal);
    let value = f64::from_bits(solution.optimal_value.expect("value"));
    assert!((value - production_optimum()).abs() < 1e-6, "objective was {value}");
}

#[test]
fn production_planning_same_optimum_through_cbc_convention() {
    // The CBC adapter negates the objective and always minimizes; the
    // optimum in the original sense must be unchanged.
    let solution = solve_with(&CoinCbcSolver::new(), &production_problem()).expect("solves");
    assert_eq!(solution.status, SolutionStatus::Optimal);
    let value = f64::from_bits(solution.optimal_value.expect("value"));
    assert!((value - production_optimum()).abs() < 1e-6, "objective was {value}");
}

#[test]
fn conflicting_bound_and_constraint_is_infeasible() {
    let objective = ObjectiveFunction::new(OptimizationType::Minimize, vec![bits(1.0)]);
    let problem = OptimizationProblem::new(objective)
        .with_name("tight".to_string())
        .add_constraint(Constraint::new(
            ConstraintType::GreaterThanOrEqual,
            vec![bits(1.0)],
            bits(5.0),
        ))
        .with_variables(vec![
            Variable::continuous("x".to_string()).with_bounds(bits(0.0), Some(bits(3.0))),
        ]);
    let solution = solve_with(&HighsSolver::new(), &problem).expect("terminates");
    assert_eq!(solution.status, SolutionStatus::Infeasible);
    assert_eq!(solution.optimal_value, None);
}

#[test]
fn free_maximization_is_unbounded() {
    let objective = ObjectiveFunction::new(OptimizationType::Maximize, vec![bits(1.0)]);
    let problem = OptimizationProblem::new(objective)
        .with_name("open".to_string())
        .with_variables(vec![Variable::continuous("x".to_string())]);
    let solution = solve_with(&HighsSolver::new(), &problem).expect("terminates");
    assert_eq!(solution.status, SolutionStatus::Unbounded);
}

#[test]
fn knapsack_selects_best_items() {
    let weights = [7.0, 3.0, 4.0, 5.0, 2.0];
    let values = [150.0, 90.0, 120.0, 100.0, 80.0];
    let capacity = 15.0;

    // Brute force over all subsets of the five items.
    let mut best = 0.0f64;
    for mask in 0u32..32 {
        let mut weight = 0.0;
        let mut value = 0.0;
        for i in 0..5 {
            if mask & (1 << i) != 0 {
                weight += weights[i];
                value += values[i];
            }
        }
        if weight <= capacity && value > best {
            best = value;
        }
    }

    let objective = ObjectiveFunction::new(
        OptimizationType::Maximize,
        values.iter().map(|v| bits(*v)).collect(),
    );
    let problem = OptimizationProblem::new(objective)
        .with_name("knapsack".to_string())
        .add_constraint(Constraint::new(
            ConstraintType::LessThanOrEqual,
            weights.iter().map(|w| bits(*w)).collect(),
            bits(capacity),
        ))
        .with_variables(
            (0..5).map(|i| Variable::binary(format!("item{i}"))).collect(),
        );
    let solution = solve_with(&HighsSolver::new(), &problem).expect("solves");
    assert_eq!(solution.status, SolutionStatus::Optimal);
    let value = f64::from_bits(solution.optimal_value.expect("value"));
    assert!(
        (value - best).abs() < 1e-6,
        "engine reported {value}, brute force found {best}"
    );

    // The chosen items must fit the capacity.
    let mut packed = 0.0;
    for (i, &v) in solution.variable_values.iter().enumerate() {
        packed += weights[i] * f64::from_bits(v);
    }
    assert!(packed <= capacity + 1e-6);
}
