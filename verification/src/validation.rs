//! Structural validation of a domain problem: dimensional consistency
//! between the objective, the declared variables and the constraint
//! rows, and well-ordered variable bounds.  Violations are collected as
//! structured errors; advisory findings are collected as warnings that
//! never block solving.

use vstd::prelude::*;

use crate::fbits;
use crate::models::count_integer;
use crate::models::Constraint;
use crate::models::OptimizationProblem;
use crate::models::Variable;

verus! {

/// Default soft threshold on the number of integer-constrained
/// variables above which a performance warning is raised.
pub const DEFAULT_INTEGER_WARNING_THRESHOLD: usize = 100;

/// One violated structural invariant.
#[derive(Debug, Clone, PartialEq, Eq)]
pub enum ValidationError {
    /// The objective has no coefficients.
    EmptyObjective,
    /// Variables were declared, but not one per objective coefficient.
    VariableCountMismatch {
        /// Number of declared variables.
        actual: usize,
        /// The problem's dimensionality `N`.
        expected: usize,
    },
    /// A constraint row does not have one coefficient per variable.
    ConstraintCoefficientMismatch {
        /// Position of the offending constraint.
        index: usize,
        /// Number of coefficients of that row.
        actual: usize,
        /// The problem's dimensionality `N`.
        expected: usize,
    },
    /// A variable declares a lower bound above its upper bound.
    BoundsReversed {
        /// Position of the offending variable.
        index: usize,
        /// Name of the offending variable.
        name: String,
        /// Declared lower bound (bit pattern).
        lower_bound: u64,
        /// Declared upper bound (bit pattern).
        upper_bound: u64,
    },
}

/// One advisory finding; never blocks solving.
#[derive(Debug, Clone, PartialEq, Eq)]
pub enum ValidationWarning {
    /// The problem has no constraints and may be unbounded.
    NoConstraints,
    /// A constraint row has only zero coefficients.
    DegenerateConstraint {
        /// Position of the degenerate constraint.
        index: usize,
    },
    /// The number of integer-constrained variables exceeds the soft
    /// threshold; the solve may be slow.
    ManyIntegerVariables {
        /// Number of integer-constrained variables.
        count: usize,
        /// The soft threshold that was exceeded.
        threshold: usize,
    },
}

/// Whether a variable's declared bounds are reversed: an upper bound is
/// present and the lower bound is above it.
pub open spec fn spec_bounds_reversed(v: Variable) -> bool {
    v.upper_bound matches Some(u) && fbits::spec_gt(v.lower_bound, u)
}

/// Whether a constraint row is degenerate: non-empty and entirely zero.
pub open spec fn spec_degenerate(c: Constraint) -> bool {
    c.coefficients@.len() > 0 && forall|i: int|
        0 <= i < c.coefficients@.len() ==> fbits::spec_is_zero(c.coefficients@[i])
}

/// Whether the problem satisfies every structural invariant: a
/// non-empty objective, variables (when declared) aligned with the
/// objective, every constraint row of dimension `N`, and no reversed
/// bounds.
pub open spec fn spec_is_valid(p: OptimizationProblem) -> bool {
    &&& p.objective.coefficients@.len() > 0
    &&& (p.variables@.len() == 0 || p.variables@.len() == p.objective.coefficients@.len())
    &&& (forall|i: int|
        0 <= i < p.constraints@.len() ==> #[trigger] p.constraints@[i].coefficients@.len()
            == p.objective.coefficients@.len())
    &&& (forall|i: int| 0 <= i < p.variables@.len() ==> !spec_bounds_reversed(#[trigger] p.variables@[i]))
}

/// The errors raised for the objective and the variable count.
pub open spec fn head_errors(p: OptimizationProblem) -> Seq<ValidationError> {
    let n = p.objective.coefficients@.len();
    (if n == 0 {
        seq![ValidationError::EmptyObjective]
    } else {
        Seq::<ValidationError>::empty()
    }) + (if p.variables@.len() != 0 && p.variables@.len() != n {
        seq![
            ValidationError::VariableCountMismatch {
                actual: p.variables@.len() as usize,
                expected: n as usize,
            },
        ]
    } else {
        Seq::<ValidationError>::empty()
    })
}

/// The errors raised for mismatched constraint rows, in row order.
pub open spec fn constraint_errors(cs: Seq<Constraint>, n: nat) -> Seq<ValidationError>
    decreases cs.len(),
{
    if cs.len() == 0 {
        Seq::<ValidationError>::empty()
    } else {
        constraint_errors(cs.drop_last(), n) + if cs.last().coefficients@.len() != n {
            seq![
                ValidationError::ConstraintCoefficientMismatch {
                    index: (cs.len() - 1) as usize,
                    actual: cs.last().coefficients@.len() as usize,
                    expected: n as usize,
                },
            ]
        } else {
            Seq::<ValidationError>::empty()
        }
    }
}

/// The errors raised for reversed variable bounds, in variable order.
pub open spec fn bound_errors(vars: Seq<Variable>) -> Seq<ValidationError>
    decreases vars.len(),
{
    if vars.len() == 0 {
        Seq::<ValidationError>::empty()
    } else {
        bound_errors(vars.drop_last()) + if spec_bounds_reversed(vars.last()) {
            seq![
                ValidationError::BoundsReversed {
                    index: (vars.len() - 1) as usize,
                    name: vars.last().name,
                    lower_bound: vars.last().lower_bound,
                    upper_bound: vars.last().upper_bound->Some_0,
                },
            ]
        } else {
            Seq::<ValidationError>::empty()
        }
    }
}

/// Every structural error of the problem, in the order checked: the
/// objective and variable-count checks, then the constraint rows, then
/// the variable bounds.
pub open spec fn spec_errors(p: OptimizationProblem) -> Seq<ValidationError> {
    head_errors(p) + constraint_errors(p.constraints@, p.objective.coefficients@.len())
        + bound_errors(p.variables@)
}

/// The degenerate-row warnings, in row order.
pub open spec fn degenerate_warnings(cs: Seq<Constraint>) -> Seq<ValidationWarning>
    decreases cs.len(),
{
    if cs.len() == 0 {
        Seq::<ValidationWarning>::empty()
    } else {
        degenerate_warnings(cs.drop_last()) + if spec_degenerate(cs.last()) {
            seq![ValidationWarning::DegenerateConstraint { index: (cs.len() - 1) as usize }]
        } else {
            Seq::<ValidationWarning>::empty()
        }
    }
}

/// Every advisory warning of the problem, in the order checked: the
/// empty constraint set, then degenerate rows, then the
/// integer-variable count against the threshold.
pub open spec fn spec_warnings(p: OptimizationProblem, threshold: nat) -> Seq<ValidationWarning> {
    (if p.constraints@.len() == 0 {
        seq![ValidationWarning::NoConstraints]
    } else {
        Seq::<ValidationWarning>::empty()
    }) + degenerate_warnings(p.constraints@) + (if count_integer(p.variables@) > threshold {
        seq![
            ValidationWarning::ManyIntegerVariables {
                count: count_integer(p.variables@) as usize,
                threshold: threshold as usize,
            },
        ]
    } else {
        Seq::<ValidationWarning>::empty()
    })
}

/// Validation is a pure function of the problem: two runs over the
/// same unmodified problem report the same errors and the same
/// warnings.  The premises are exactly what `collect_errors` and
/// `collect_warnings` guarantee of each run.
pub proof fn lemma_validation_idempotent(
    p: OptimizationProblem,
    errors_first: Seq<ValidationError>,
    errors_second: Seq<ValidationError>,
    warnings_first: Seq<ValidationWarning>,
    warnings_second: Seq<ValidationWarning>,
    threshold: nat,
)
    requires
        errors_first == spec_errors(p),
        errors_second == spec_errors(p),
        warnings_first == spec_warnings(p, threshold),
        warnings_second == spec_warnings(p, threshold),
    ensures
        errors_first == errors_second,
        warnings_first == warnings_second,
{
}

/// The problem is valid exactly when no error is raised.
pub proof fn lemma_valid_iff_no_errors(p: OptimizationProblem)
    ensures
        spec_is_valid(p) <==> spec_errors(p).len() == 0,
{
    lemma_constraint_errors_empty(p.constraints@, p.objective.coefficients@.len());
    lemma_bound_errors_empty(p.variables@);
}

proof fn lemma_constraint_errors_empty(cs: Seq<Constraint>, n: nat)
    ensures
        (constraint_errors(cs, n).len() == 0) <==> (forall|i: int|
            0 <= i < cs.len() ==> #[trigger] cs[i].coefficients@.len() == n),
    decreases cs.len(),
{
    if cs.len() > 0 {
        lemma_constraint_errors_empty(cs.drop_last(), n);
        assert(forall|i: int| 0 <= i < cs.len() - 1 ==> cs.drop_last()[i] == #[trigger] cs[i]);
    }
}

proof fn lemma_bound_errors_empty(vars: Seq<Variable>)
    ensures
        (bound_errors(vars).len() == 0) <==> (forall|i: int|
            0 <= i < vars.len() ==> !spec_bounds_reversed(#[trigger] vars[i])),
    decreases vars.len(),
{
    if vars.len() > 0 {
        lemma_bound_errors_empty(vars.drop_last());
        assert(forall|i: int|
            0 <= i < vars.len() - 1 ==> vars.drop_last()[i] == #[trigger] vars[i]);
    }
}

/// Declaring a number of variables other than `N` (and other than
/// none) always raises the count-mismatch error.
pub proof fn lemma_variable_count_mismatch_detected(p: OptimizationProblem)
    requires
        p.variables@.len() != 0,
        p.variables@.len() != p.objective.coefficients@.len(),
    ensures
        spec_errors(p).contains(
            ValidationError::VariableCountMismatch {
                actual: p.variables@.len() as usize,
                expected: p.objective.coefficients@.len() as usize,
            },
        ),
        spec_errors(p).len() > 0,
        !spec_is_valid(p),
{
    let n = p.objective.coefficients@.len();
    let e = ValidationError::VariableCountMismatch {
        actual: p.variables@.len() as usize,
        expected: n as usize,
    };
    let h = head_errors(p);
    assert(h[h.len() - 1] == e);
    assert(spec_errors(p)[h.len() - 1] == e);
}

proof fn lemma_constraint_errors_contains(cs: Seq<Constraint>, n: nat, i: int)
    requires
        0 <= i < cs.len(),
        cs[i].coefficients@.len() != n,
    ensures
        constraint_errors(cs, n).contains(
            ValidationError::ConstraintCoefficientMismatch {
                index: i as usize,
                actual: cs[i].coefficients@.len() as usize,
                expected: n as usize,
            },
        ),
    decreases cs.len(),
{
    let e = ValidationError::ConstraintCoefficientMismatch {
        index: i as usize,
        actual: cs[i].coefficients@.len() as usize,
        expected: n as usize,
    };
    if i == cs.len() - 1 {
        let s = constraint_errors(cs, n);
        assert(s[s.len() - 1] == e);
    } else {
        lemma_constraint_errors_contains(cs.drop_last(), n, i);
        let prev = constraint_errors(cs.drop_last(), n);
        let j = choose|j: int| 0 <= j < prev.len() && prev[j] == e;
        assert(constraint_errors(cs, n)[j] == e);
    }
}

/// A constraint row of the wrong dimension always raises the
/// mismatch error carrying that row's position.
pub proof fn lemma_constraint_mismatch_detected(p: OptimizationProblem, i: int)
    requires
        0 <= i < p.constraints@.len(),
        p.constraints@[i].coefficients@.len() != p.objective.coefficients@.len(),
    ensures
        spec_errors(p).contains(
            ValidationError::ConstraintCoefficientMismatch {
                index: i as usize,
                actual: p.constraints@[i].coefficients@.len() as usize,
                expected: p.objective.coefficients@.len() as usize,
            },
        ),
        spec_errors(p).len() > 0,
        !spec_is_valid(p),
{
    let n = p.objective.coefficients@.len();
    let e = ValidationError::ConstraintCoefficientMismatch {
        index: i as usize,
        actual: p.constraints@[i].coefficients@.len() as usize,
        expected: n as usize,
    };
    lemma_constraint_errors_contains(p.constraints@, n, i);
    let mid = constraint_errors(p.constraints@, n);
    let j = choose|j: int| 0 <= j < mid.len() && mid[j] == e;
    assert(spec_errors(p)[head_errors(p).len() + j] == e);
}

/// Collects every structural error of the problem, in checking order.
pub fn collect_errors(p: &OptimizationProblem) -> (errors: Vec<ValidationError>)
    ensures
        errors@ == spec_errors(*p),
{
    let n = p.num_variables();
    let mut errors: Vec<ValidationError> = Vec::new();
    if n == 0 {
        errors.push(ValidationError::EmptyObjective);
    }
    if p.variables.len() != 0 && p.variables.len() != n {
        errors.push(
            ValidationError::VariableCountMismatch { actual: p.variables.len(), expected: n },
        );
    }
    proof {
        assert(errors@ =~= head_errors(*p));
    }
    let mut i: usize = 0;
    while i < p.constraints.len()
        invariant
            i <= p.constraints@.len(),
            n == p.objective.coefficients@.len(),
            errors@ =~= head_errors(*p) + constraint_errors(
                p.constraints@.subrange(0, i as int),
                n as nat,
            ),
        decreases p.constraints@.len() - i,
    {
        proof {
            assert(p.constraints@.subrange(0, i + 1).drop_last() =~= p.constraints@.subrange(
                0,
                i as int,
            ));
            assert(p.constraints@.subrange(0, i + 1).last() == p.constraints@[i as int]);
        }
        if p.constraints[i].num_variables() != n {
            errors.push(
                ValidationError::ConstraintCoefficientMismatch {
                    index: i,
                    actual: p.constraints[i].coefficients.len(),
                    expected: n,
                },
            );
        }
        i += 1;
    }
    proof {
        assert(p.constraints@.subrange(0, p.constraints@.len() as int) =~= p.constraints@);
    }
    let mut k: usize = 0;
    while k < p.variables.len()
        invariant
            k <= p.variables@.len(),
            n == p.objective.coefficients@.len(),
            errors@ =~= head_errors(*p) + constraint_errors(p.constraints@, n as nat)
                + bound_errors(p.variables@.subrange(0, k as int)),
        decreases p.variables@.len() - k,
    {
        proof {
            assert(p.variables@.subrange(0, k + 1).drop_last() =~= p.variables@.subrange(
                0,
                k as int,
            ));
            assert(p.variables@.subrange(0, k + 1).last() == p.variables@[k as int]);
        }
        let v = &p.variables[k];
        match v.upper_bound {
            Some(upper) => {
                if fbits::gt(v.lower_bound, upper) {
                    errors.push(
                        ValidationError::BoundsReversed {
                            index: k,
                            name: v.name.clone(),
                            lower_bound: v.lower_bound,
                            upper_bound: upper,
                        },
                    );
                }
            },
            None => {},
        }
        k += 1;
    }
    proof {
        assert(p.variables@.subrange(0, p.variables@.len() as int) =~= p.variables@);
    }
    errors
}

fn is_degenerate(c: &Constraint) -> (r: bool)
    ensures
        r == spec_degenerate(*c),
{
    if c.coefficients.len() == 0 {
        return false;
    }
    let mut i: usize = 0;
    while i < c.coefficients.len()
        invariant
            i <= c.coefficients@.len(),
            forall|j: int| 0 <= j < i ==> fbits::spec_is_zero(#[trigger] c.coefficients@[j]),
        decreases c.coefficients@.len() - i,
    {
        if !fbits::is_zero(c.coefficients[i]) {
            return false;
        }
        i += 1;
    }
    true
}

/// Collects every advisory warning of the problem, in checking order,
/// using the given soft threshold for the integer-variable count.
pub fn collect_warnings(p: &OptimizationProblem, threshold: usize) -> (warnings: Vec<
    ValidationWarning,
>)
    ensures
        warnings@ == spec_warnings(*p, threshold as nat),
{
    let mut warnings: Vec<ValidationWarning> = Vec::new();
    if p.constraints.len() == 0 {
        warnings.push(ValidationWarning::NoConstraints);
    }
    let ghost head = warnings@;
    let mut i: usize = 0;
    while i < p.constraints.len()
        invariant
            i <= p.constraints@.len(),
            warnings@ =~= head + degenerate_warnings(p.constraints@.subrange(0, i as int)),
        decreases p.constraints@.len() - i,
    {
        proof {
            assert(p.constraints@.subrange(0, i + 1).drop_last() =~= p.constraints@.subrange(
                0,
                i as int,
            ));
            assert(p.constraints@.subrange(0, i + 1).last() == p.constraints@[i as int]);
        }
        if is_degenerate(&p.constraints[i]) {
            warnings.push(ValidationWarning::DegenerateConstraint { index: i });
        }
        i += 1;
    }
    proof {
        assert(p.constraints@.subrange(0, p.constraints@.len() as int) =~= p.constraints@);
    }
    let num_integer = p.num_integer_variables();
    if num_integer > threshold {
        warnings.push(ValidationWarning::ManyIntegerVariables { count: num_integer, threshold });
    }
    warnings
}

} // verus!
