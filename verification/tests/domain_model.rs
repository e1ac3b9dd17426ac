//! The domain model: builders, counters, and value-object display
//! names.

use letsopt::fbits;
use letsopt::models::{
    Constraint, ObjectiveFunction, OptimizationProblem, Solution, SolverConfig, SolverStatistics,
    Variable,
};
use letsopt::values::{
    ConstraintType, OptimizationType, SolutionStatus, SolverBackend, VariableType,
};

fn bits(x: f64) -> u64 {
    x.to_bits()
}

#[test]
fn continuous_variable_defaults() {
    let v = Variable::continuous("load".to_string());
    assert_eq!(v.variable_type, VariableType::Continuous);
    assert_eq!(v.lower_bound, bits(0.0));
    assert_eq!(v.upper_bound, None);
    assert_eq!(v.name, "load");
    assert!(!v.is_integer());
}

#[test]
fn integer_variable_defaults() {
    let v = Variable::integer("count".to_string());
    assert_eq!(v.variable_type, VariableType::Integer);
    assert_eq!(v.lower_bound, bits(0.0));
    assert_eq!(v.upper_bound, None);
    assert!(v.is_integer());
}

#[test]
fn binary_variable_bounds() {
    let v = Variable::binary("pick".to_string());
    assert_eq!(v.variable_type, VariableType::Binary);
    assert_eq!(v.lower_bound, bits(0.0));
    assert_eq!(v.upper_bound, Some(bits(1.0)));
    assert!(v.is_integer());
}

#[test]
fn with_bounds_overrides() {
    let v = Variable::continuous("x".to_string()).with_bounds(bits(-5.0), Some(bits(5.0)));
    assert_eq!(v.lower_bound, bits(-5.0));
    assert_eq!(v.upper_bound, Some(bits(5.0)));
    assert_eq!(v.variable_type, VariableType::Continuous);
}

#[test]
fn objective_synthesizes_positional_names() {
    let coefficients: Vec<u64> = (0..12).map(|i| bits(i as f64)).collect();
    let o = ObjectiveFunction::new(OptimizationType::Maximize, coefficients);
    assert_eq!(o.num_variables(), 12);
    assert_eq!(o.variable_names.len(), 12);
    assert_eq!(o.variable_names[0], "x0");
    assert_eq!(o.variable_names[9], "x9");
    assert_eq!(o.variable_names[10], "x10");
    assert_eq!(o.variable_names[11], "x11");
}

#[test]
fn objective_with_names_overrides() {
    let o = ObjectiveFunction::new(OptimizationType::Minimize, vec![bits(1.0), bits(2.0)])
        .with_names(vec!["alpha".to_string(), "beta".to_string()]);
    assert_eq!(o.variable_names, vec!["alpha".to_string(), "beta".to_string()]);
    assert_eq!(o.optimization_type, OptimizationType::Minimize);
}

#[test]
fn constraint_builders() {
    let c = Constraint::new(
        ConstraintType::LessThanOrEqual,
        vec![bits(2.0), bits(3.0)],
        bits(100.0),
    );
    assert_eq!(c.name, "");
    assert_eq!(c.num_variables(), 2);
    let c = c.with_name("capacity".to_string());
    assert_eq!(c.name, "capacity");
    assert_eq!(c.constraint_type, ConstraintType::LessThanOrEqual);
    assert_eq!(c.bound, bits(100.0));
}

#[test]
fn problem_builders_accumulate() {
    let objective = ObjectiveFunction::new(OptimizationType::Maximize, vec![bits(1.0), bits(1.0)]);
    let constraint = Constraint::new(
        ConstraintType::Equal,
        vec![bits(1.0), bits(1.0)],
        bits(10.0),
    );
    let variables = vec![
        Variable::continuous("a".to_string()),
        Variable::integer("b".to_string()),
    ];
    let config = SolverConfig {
        backend: SolverBackend::CoinCbc,
        time_limit: Some(bits(30.0)),
        gap_tolerance: None,
        verbose: true,
    };
    let p = OptimizationProblem::new(objective)
        .with_name("plan".to_string())
        .with_description("a small plan".to_string())
        .add_constraint(constraint.clone())
        .with_variables(variables.clone())
        .with_config(config.clone());
    assert_eq!(p.name, "plan");
    assert_eq!(p.description, "a small plan");
    assert_eq!(p.constraints, vec![constraint]);
    assert_eq!(p.variables, variables);
    assert_eq!(p.solver_config, config);
    assert_eq!(p.num_variables(), 2);
}

#[test]
fn integer_variable_count_and_mip_flag() {
    let objective =
        ObjectiveFunction::new(OptimizationType::Minimize, vec![bits(1.0), bits(1.0), bits(1.0)]);
    let lp = OptimizationProblem::new(objective.clone()).with_variables(vec![
        Variable::continuous("a".to_string()),
        Variable::continuous("b".to_string()),
        Variable::continuous("c".to_string()),
    ]);
    assert_eq!(lp.num_integer_variables(), 0);
    assert!(!lp.is_mixed_integer());

    let mip = OptimizationProblem::new(objective).with_variables(vec![
        Variable::continuous("a".to_string()),
        Variable::integer("b".to_string()),
        Variable::binary("c".to_string()),
    ]);
    assert_eq!(mip.num_integer_variables(), 2);
    assert!(mip.is_mixed_integer());
}

#[test]
fn solution_constructors() {
    let s = Solution::new(SolutionStatus::Error, "engine fault".to_string());
    assert_eq!(s.status, SolutionStatus::Error);
    assert_eq!(s.message, "engine fault");
    assert_eq!(s.optimal_value, None);
    assert_eq!(s.best_bound, None);
    assert_eq!(s.gap, None);
    assert!(s.variable_values.is_empty());
    assert!(s.dual_values.is_empty());

    let s = Solution::optimal(bits(1700.0), vec![bits(20.0), bits(20.0)]);
    assert_eq!(s.status, SolutionStatus::Optimal);
    assert_eq!(s.optimal_value, Some(bits(1700.0)));
    assert_eq!(s.best_bound, Some(bits(1700.0)));
    assert_eq!(s.gap, Some(bits(0.0)));
    assert_eq!(s.variable_values, vec![bits(20.0), bits(20.0)]);
    assert_eq!(s.message, "Optimal solution found");
}

#[test]
fn solution_attachments() {
    let stats = SolverStatistics {
        simplex_iterations: 7,
        nodes_explored: 3,
        solve_time_ms: bits(12.5),
        num_variables: 2,
        num_constraints: 1,
        num_integer_vars: 0,
        num_binary_vars: 0,
    };
    let s = Solution::optimal(bits(1.0), vec![bits(1.0)]).with_statistics(stats.clone());
    assert_eq!(s.statistics, stats);
}

#[test]
fn solution_feasibility_flags() {
    assert!(Solution::optimal(bits(0.0), vec![]).is_optimal());
    assert!(Solution::optimal(bits(0.0), vec![]).is_feasible());
    let feasible = Solution::new(SolutionStatus::Feasible, "found".to_string());
    assert!(!feasible.is_optimal());
    assert!(feasible.is_feasible());
    let infeasible = Solution::new(SolutionStatus::Infeasible, "none".to_string());
    assert!(!infeasible.is_optimal());
    assert!(!infeasible.is_feasible());
}

#[test]
fn solver_config_default() {
    let c = SolverConfig::default();
    assert_eq!(c.backend, SolverBackend::Auto);
    assert_eq!(c.time_limit, None);
    assert_eq!(c.gap_tolerance, None);
    assert!(!c.verbose);
}

#[test]
fn status_display_names() {
    assert_eq!(SolutionStatus::Optimal.display_name(), "Optimal");
    assert_eq!(SolutionStatus::Feasible.display_name(), "Feasible");
    assert_eq!(SolutionStatus::Infeasible.display_name(), "Infeasible");
    assert_eq!(SolutionStatus::Unbounded.display_name(), "Unbounded");
    assert_eq!(SolutionStatus::TimeLimit.display_name(), "Time Limit Reached");
    assert_eq!(SolutionStatus::IterationLimit.display_name(), "Iteration Limit Reached");
    assert_eq!(SolutionStatus::NodeLimit.display_name(), "Node Limit Reached");
    assert_eq!(SolutionStatus::Error.display_name(), "Error");
    assert_eq!(SolutionStatus::Interrupted.display_name(), "Interrupted");
}

#[test]
fn backend_display_names() {
    assert_eq!(SolverBackend::Auto.display_name(), "Auto");
    assert_eq!(SolverBackend::CoinCbc.display_name(), "COIN-OR CBC");
    assert_eq!(SolverBackend::Highs.display_name(), "HiGHS");
}

#[test]
fn fbits_constants_match_doubles() {
    assert_eq!(fbits::ZERO_BITS, 0.0f64.to_bits());
    assert_eq!(fbits::ONE_BITS, 1.0f64.to_bits());
}
