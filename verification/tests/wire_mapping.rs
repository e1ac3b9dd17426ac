//! The wire mapping layer: default filling, rejection of malformed
//! input, sentinel decoding, and the total solution-to-wire mapping.

use letsopt::models::{Solution, SolverStatistics};
use letsopt::values::{
    ConstraintType, OptimizationType, SolutionStatus, SolverBackend, VariableType,
};
use letsopt::wire::{
    domain_to_proto_solution, proto_to_domain_config, proto_to_domain_problem, EnumField,
    MappingError, WireConstraint, WireMipOptions, WireObjective, WireProblem, WireSolverConfig,
    WireVariable,
};

fn bits(x: f64) -> u64 {
    x.to_bits()
}

fn minimal_wire_problem() -> WireProblem {
    WireProblem {
        objective: Some(WireObjective {
            kind: 1,
            coefficients: vec![bits(30.0), bits(50.0), bits(2.0)],
            variable_names: vec![],
        }),
        constraints: vec![],
        variables: vec![],
        solver_config: None,
        problem_name: "sample".to_string(),
        description: "".to_string(),
    }
}

#[test]
fn default_variables_synthesized() {
    let p = proto_to_domain_problem(&minimal_wire_problem()).expect("maps");
    assert_eq!(p.variables.len(), 3);
    for (i, v) in p.variables.iter().enumerate() {
        assert_eq!(v.variable_type, VariableType::Continuous);
        assert_eq!(v.lower_bound, bits(0.0));
        assert_eq!(v.upper_bound, None);
        assert_eq!(v.name, format!("x{i}"));
    }
    assert_eq!(p.objective.optimization_type, OptimizationType::Maximize);
    assert_eq!(p.objective.coefficients, vec![bits(30.0), bits(50.0), bits(2.0)]);
    assert_eq!(p.name, "sample");
}

#[test]
fn missing_objective_rejected() {
    let mut w = minimal_wire_problem();
    w.objective = None;
    assert_eq!(proto_to_domain_problem(&w), Err(MappingError::MissingObjective));
}

#[test]
fn invalid_direction_rejected() {
    let mut w = minimal_wire_problem();
    w.objective.as_mut().unwrap().kind = 9;
    assert_eq!(
        proto_to_domain_problem(&w),
        Err(MappingError::InvalidEnum(EnumField::OptimizationDirection))
    );
}

#[test]
fn invalid_variable_kind_rejected() {
    let mut w = minimal_wire_problem();
    w.variables = vec![
        WireVariable { kind: 0, lower_bound: bits(0.0), upper_bound: None, name: "a".to_string() },
        WireVariable { kind: 7, lower_bound: bits(0.0), upper_bound: None, name: "b".to_string() },
        WireVariable { kind: 1, lower_bound: bits(0.0), upper_bound: None, name: "c".to_string() },
    ];
    assert_eq!(
        proto_to_domain_problem(&w),
        Err(MappingError::InvalidEnum(EnumField::VariableKind))
    );
}

#[test]
fn invalid_constraint_kind_rejected() {
    let mut w = minimal_wire_problem();
    w.constraints = vec![WireConstraint {
        kind: -1,
        coefficients: vec![bits(1.0), bits(1.0), bits(1.0)],
        bound: bits(5.0),
        name: "".to_string(),
    }];
    assert_eq!(
        proto_to_domain_problem(&w),
        Err(MappingError::InvalidEnum(EnumField::ConstraintComparison))
    );
}

#[test]
fn supplied_variables_mapped() {
    let mut w = minimal_wire_problem();
    w.variables = vec![
        WireVariable {
            kind: 0,
            lower_bound: bits(-1.0),
            upper_bound: Some(bits(4.0)),
            name: "a".to_string(),
        },
        WireVariable { kind: 1, lower_bound: bits(0.0), upper_bound: None, name: "b".to_string() },
        WireVariable {
            kind: 2,
            lower_bound: bits(0.0),
            upper_bound: Some(bits(1.0)),
            name: "c".to_string(),
        },
    ];
    w.constraints = vec![WireConstraint {
        kind: 2,
        coefficients: vec![bits(1.0), bits(0.0), bits(-2.5)],
        bound: bits(3.0),
        name: "floor".to_string(),
    }];
    let p = proto_to_domain_problem(&w).expect("maps");
    assert_eq!(p.variables.len(), 3);
    assert_eq!(p.variables[0].variable_type, VariableType::Continuous);
    assert_eq!(p.variables[0].lower_bound, bits(-1.0));
    assert_eq!(p.variables[0].upper_bound, Some(bits(4.0)));
    assert_eq!(p.variables[1].variable_type, VariableType::Integer);
    assert_eq!(p.variables[2].variable_type, VariableType::Binary);
    assert_eq!(p.variables[2].name, "c");
    assert_eq!(p.constraints.len(), 1);
    assert_eq!(p.constraints[0].constraint_type, ConstraintType::GreaterThanOrEqual);
    assert_eq!(p.constraints[0].coefficients, vec![bits(1.0), bits(0.0), bits(-2.5)]);
    assert_eq!(p.constraints[0].bound, bits(3.0));
    assert_eq!(p.constraints[0].name, "floor");
}

#[test]
fn config_absent_defaults() {
    let c = proto_to_domain_config(&None);
    assert_eq!(c.backend, SolverBackend::Auto);
    assert_eq!(c.time_limit, None);
    assert_eq!(c.gap_tolerance, None);
    assert!(!c.verbose);
}

#[test]
fn backend_discriminants_decode() {
    let mk = |solver: i32| WireSolverConfig {
        solver,
        time_limit: bits(0.0),
        verbose: false,
        mip_options: None,
    };
    assert_eq!(proto_to_domain_config(&Some(mk(0))).backend, SolverBackend::Auto);
    assert_eq!(proto_to_domain_config(&Some(mk(1))).backend, SolverBackend::CoinCbc);
    assert_eq!(proto_to_domain_config(&Some(mk(2))).backend, SolverBackend::Highs);
    // An out-of-range backend resolves to Auto; it is not an error.
    assert_eq!(proto_to_domain_config(&Some(mk(77))).backend, SolverBackend::Auto);
}

#[test]
fn time_limit_sentinel() {
    let mk = |time_limit: u64| WireSolverConfig {
        solver: 0,
        time_limit,
        verbose: true,
        mip_options: None,
    };
    assert_eq!(proto_to_domain_config(&Some(mk(bits(0.0)))).time_limit, None);
    assert_eq!(proto_to_domain_config(&Some(mk(bits(-3.0)))).time_limit, None);
    assert_eq!(
        proto_to_domain_config(&Some(mk(bits(30.0)))).time_limit,
        Some(bits(30.0))
    );
    assert!(proto_to_domain_config(&Some(mk(bits(0.0)))).verbose);
}

#[test]
fn gap_tolerance_sentinel() {
    let mk = |gap_tolerance: u64| WireSolverConfig {
        solver: 0,
        time_limit: bits(0.0),
        verbose: false,
        mip_options: Some(WireMipOptions { gap_tolerance }),
    };
    assert_eq!(proto_to_domain_config(&Some(mk(bits(0.0)))).gap_tolerance, None);
    assert_eq!(proto_to_domain_config(&Some(mk(bits(-0.5)))).gap_tolerance, None);
    assert_eq!(
        proto_to_domain_config(&Some(mk(bits(0.01)))).gap_tolerance,
        Some(bits(0.01))
    );
}

#[test]
fn solution_mapped_to_wire_verbatim() {
    let mut s = Solution::optimal(bits(1700.0), vec![bits(20.0), bits(20.0)]);
    s.dual_values = vec![bits(0.5)];
    s.statistics = SolverStatistics {
        simplex_iterations: 11,
        nodes_explored: 2,
        solve_time_ms: bits(8.25),
        num_variables: 2,
        num_constraints: 2,
        num_integer_vars: 0,
        num_binary_vars: 0,
    };
    let r = domain_to_proto_solution(s, "HiGHS");
    assert_eq!(r.status, 0);
    assert_eq!(r.optimal_value, Some(bits(1700.0)));
    assert_eq!(r.best_bound, Some(bits(1700.0)));
    assert_eq!(r.gap, Some(bits(0.0)));
    assert_eq!(r.solution_values, vec![bits(20.0), bits(20.0)]);
    assert_eq!(r.dual_values, vec![bits(0.5)]);
    assert!(r.reduced_costs.is_empty());
    assert!(r.slack_values.is_empty());
    assert_eq!(r.message, "Optimal solution found");
    let stats = r.statistics.expect("statistics present");
    assert_eq!(stats.simplex_iterations, 11);
    assert_eq!(stats.nodes_explored, 2);
    assert_eq!(stats.solve_time_ms, bits(8.25));
    assert_eq!(stats.num_variables, 2);
    assert_eq!(stats.num_constraints, 2);
    assert_eq!(stats.solver_backend, "HiGHS");
    let quality = r.quality.expect("quality present");
    assert_eq!(quality.max_relative_violation, bits(0.0));
}

#[test]
fn status_codes_cover_every_status() {
    let cases = vec![
        (SolutionStatus::Optimal, 0),
        (SolutionStatus::Feasible, 1),
        (SolutionStatus::Infeasible, 2),
        (SolutionStatus::Unbounded, 3),
        (SolutionStatus::TimeLimit, 4),
        (SolutionStatus::IterationLimit, 5),
        (SolutionStatus::NodeLimit, 6),
        (SolutionStatus::Error, 7),
        (SolutionStatus::Interrupted, 8),
    ];
    for (status, code) in cases {
        let s = Solution::new(status, "m".to_string());
        assert_eq!(domain_to_proto_solution(s, "Auto").status, code);
    }
}
