//! The validation engine: structural errors, advisory warnings, and
//! idempotence.

use letsopt::backend::SolverError;
use letsopt::models::{Constraint, ObjectiveFunction, OptimizationProblem, Variable};
use letsopt::service::GrpcLpSolverService;
use letsopt::validation::{ValidationError, ValidationWarning};
use letsopt::values::{ConstraintType, OptimizationType};

fn bits(x: f64) -> u64 {
    x.to_bits()
}

fn two_variable_problem() -> OptimizationProblem {
    let objective = ObjectiveFunction::new(OptimizationType::Maximize, vec![bits(3.0), bits(5.0)]);
    OptimizationProblem::new(objective)
        .with_variables(vec![
            Variable::continuous("a".to_string()),
            Variable::continuous("b".to_string()),
        ])
        .add_constraint(Constraint::new(
            ConstraintType::LessThanOrEqual,
            vec![bits(1.0), bits(1.0)],
            bits(10.0),
        ))
}

#[test]
fn valid_problem_passes() {
    let service = GrpcLpSolverService::new();
    let r = service.validate_only(&two_variable_problem());
    assert_eq!(r, Ok(vec![]));
}

#[test]
fn empty_objective_rejected() {
    let service = GrpcLpSolverService::new();
    let p = OptimizationProblem::new(ObjectiveFunction::new(OptimizationType::Minimize, vec![]));
    match service.validate_only(&p) {
        Err(SolverError::InvalidProblem(errors)) => {
            assert_eq!(errors, vec![ValidationError::EmptyObjective]);
        }
        other => panic!("expected InvalidProblem, got {other:?}"),
    }
}

#[test]
fn variable_count_mismatch_rejected() {
    let service = GrpcLpSolverService::new();
    let p = two_variable_problem().with_variables(vec![
        Variable::continuous("a".to_string()),
        Variable::continuous("b".to_string()),
        Variable::continuous("c".to_string()),
    ]);
    match service.validate_only(&p) {
        Err(SolverError::InvalidProblem(errors)) => {
            assert_eq!(
                errors,
                vec![ValidationError::VariableCountMismatch { actual: 3, expected: 2 }]
            );
        }
        other => panic!("expected InvalidProblem, got {other:?}"),
    }
}

#[test]
fn constraint_dimension_mismatch_identifies_index() {
    let service = GrpcLpSolverService::new();
    let p = two_variable_problem().add_constraint(Constraint::new(
        ConstraintType::Equal,
        vec![bits(1.0), bits(2.0), bits(3.0)],
        bits(4.0),
    ));
    match service.validate_only(&p) {
        Err(SolverError::InvalidProblem(errors)) => {
            assert_eq!(
                errors,
                vec![ValidationError::ConstraintCoefficientMismatch {
                    index: 1,
                    actual: 3,
                    expected: 2,
                }]
            );
        }
        other => panic!("expected InvalidProblem, got {other:?}"),
    }
}

#[test]
fn reversed_bounds_rejected() {
    let service = GrpcLpSolverService::new();
    let p = two_variable_problem().with_variables(vec![
        Variable::continuous("a".to_string()),
        Variable::continuous("b".to_string()).with_bounds(bits(7.0), Some(bits(3.0))),
    ]);
    match service.validate_only(&p) {
        Err(SolverError::InvalidProblem(errors)) => {
            assert_eq!(
                errors,
                vec![ValidationError::BoundsReversed {
                    index: 1,
                    name: "b".to_string(),
                    lower_bound: bits(7.0),
                    upper_bound: bits(3.0),
                }]
            );
        }
        other => panic!("expected InvalidProblem, got {other:?}"),
    }
}

#[test]
fn nan_bounds_never_flagged_as_reversed() {
    // A comparison involving a NaN is false, so a NaN bound cannot
    // make the lower bound count as above the upper bound.
    let service = GrpcLpSolverService::new();
    let p = two_variable_problem().with_variables(vec![
        Variable::continuous("a".to_string())
            .with_bounds(f64::NAN.to_bits(), Some(bits(1.0))),
        Variable::continuous("b".to_string())
            .with_bounds(bits(5.0), Some(f64::NAN.to_bits())),
    ]);
    assert!(service.validate_only(&p).is_ok());
}

#[test]
fn missing_upper_bound_never_flagged() {
    let service = GrpcLpSolverService::new();
    let p = two_variable_problem().with_variables(vec![
        Variable::continuous("a".to_string()).with_bounds(bits(1e300), None),
        Variable::continuous("b".to_string()),
    ]);
    assert!(service.validate_only(&p).is_ok());
}

#[test]
fn equal_bounds_accepted() {
    let service = GrpcLpSolverService::new();
    let p = two_variable_problem().with_variables(vec![
        Variable::continuous("a".to_string()).with_bounds(bits(4.0), Some(bits(4.0))),
        Variable::continuous("b".to_string()),
    ]);
    assert!(service.validate_only(&p).is_ok());
}

#[test]
fn multiple_errors_collected_in_order() {
    let service = GrpcLpSolverService::new();
    let objective = ObjectiveFunction::new(OptimizationType::Minimize, vec![bits(1.0)]);
    let p = OptimizationProblem::new(objective)
        .with_variables(vec![
            Variable::continuous("a".to_string()).with_bounds(bits(2.0), Some(bits(1.0))),
            Variable::continuous("b".to_string()),
        ])
        .add_constraint(Constraint::new(ConstraintType::Equal, vec![], bits(0.0)));
    match service.validate_only(&p) {
        Err(SolverError::InvalidProblem(errors)) => {
            assert_eq!(
                errors,
                vec![
                    ValidationError::VariableCountMismatch { actual: 2, expected: 1 },
                    ValidationError::ConstraintCoefficientMismatch {
                        index: 0,
                        actual: 0,
                        expected: 1,
                    },
                    ValidationError::BoundsReversed {
                        index: 0,
                        name: "a".to_string(),
                        lower_bound: bits(2.0),
                        upper_bound: bits(1.0),
                    },
                ]
            );
        }
        other => panic!("expected InvalidProblem, got {other:?}"),
    }
}

#[test]
fn no_constraints_warning() {
    let service = GrpcLpSolverService::new();
    let p = OptimizationProblem::new(ObjectiveFunction::new(
        OptimizationType::Maximize,
        vec![bits(1.0)],
    ));
    let warnings = service.validate_only(&p).expect("valid");
    assert_eq!(warnings, vec![ValidationWarning::NoConstraints]);
}

#[test]
fn degenerate_row_warning() {
    let service = GrpcLpSolverService::new();
    let p = two_variable_problem().add_constraint(Constraint::new(
        ConstraintType::GreaterThanOrEqual,
        vec![bits(0.0), bits(-0.0)],
        bits(0.0),
    ));
    let warnings = service.validate_only(&p).expect("valid");
    assert_eq!(warnings, vec![ValidationWarning::DegenerateConstraint { index: 1 }]);
}

#[test]
fn many_integer_variables_warning() {
    let service = GrpcLpSolverService::new();
    let n = 101usize;
    let coefficients: Vec<u64> = (0..n).map(|_| bits(1.0)).collect();
    let variables: Vec<Variable> =
        (0..n).map(|i| Variable::integer(format!("v{i}"))).collect();
    let mut coeffs_row: Vec<u64> = Vec::new();
    coeffs_row.resize(n, bits(1.0));
    let p = OptimizationProblem::new(ObjectiveFunction::new(
        OptimizationType::Maximize,
        coefficients,
    ))
    .with_variables(variables)
    .add_constraint(Constraint::new(
        ConstraintType::LessThanOrEqual,
        coeffs_row,
        bits(50.0),
    ));
    let warnings = service.validate_only(&p).expect("valid");
    assert_eq!(
        warnings,
        vec![ValidationWarning::ManyIntegerVariables { count: 101, threshold: 100 }]
    );
}

#[test]
fn validate_is_idempotent() {
    let service = GrpcLpSolverService::new();
    let good = two_variable_problem();
    assert_eq!(service.validate_only(&good), service.validate_only(&good));

    let bad = two_variable_problem().with_variables(vec![Variable::continuous("a".to_string())]);
    assert_eq!(service.validate_only(&bad), service.validate_only(&bad));

    let report_once = service.validate_problem(&bad);
    let report_twice = service.validate_problem(&bad);
    assert_eq!(report_once, report_twice);
}
