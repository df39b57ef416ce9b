use cplex_rs::constants;
use cplex_rs::payload::{ColumnPayload, RowPayload};
use cplex_rs::{
    Constraint, ConstraintType, Error, ObjectiveType, Problem, ProblemType, Real, Variable,
    VariableType,
};

fn r(x: f64) -> Real {
    Real::from_bits(x.to_bits())
}

const INF: f64 = 1.0e20;

#[test]
fn infinite_bound_pattern() {
    assert_eq!(constants::CPX_INFBOUND_PATTERN, INF.to_bits());
}

fn mipex1_variables() -> Vec<Variable> {
    vec![
        Variable::new(VariableType::Continuous, r(1.0), r(0.0), r(40.0), "x0"),
        Variable::new(VariableType::Continuous, r(2.0), r(0.0), r(INF), "x1"),
        Variable::new(VariableType::Continuous, r(3.0), r(0.0), r(INF), "x2"),
        Variable::new(VariableType::Integer, r(1.0), r(2.0), r(3.0), "x3"),
    ]
}

#[test]
fn mipex1_model_build() {
    let mut problem = Problem::new("mipex1").unwrap();

    let mut ids = Vec::new();
    for v in mipex1_variables() {
        ids.push(problem.add_variable(v).unwrap());
    }
    assert_eq!(ids.len(), 4);
    for (i, id) in ids.iter().enumerate() {
        assert_eq!(id.into_inner(), i);
    }

    let c0 = problem
        .add_constraint(Constraint::new(
            ConstraintType::LessThanEq,
            r(20.0),
            None,
            vec![(ids[0], r(-1.0)), (ids[1], r(1.0)), (ids[2], r(1.0)), (ids[3], r(10.0))],
        ))
        .unwrap();
    let c1 = problem
        .add_constraint(Constraint::new(
            ConstraintType::LessThanEq,
            r(30.0),
            None,
            vec![(ids[0], r(1.0)), (ids[1], r(-3.0)), (ids[2], r(1.0))],
        ))
        .unwrap();
    let c2 = problem
        .add_constraint(Constraint::new(
            ConstraintType::Eq,
            r(0.0),
            None,
            vec![(ids[1], r(1.0)), (ids[3], r(-3.5))],
        ))
        .unwrap();
    assert_eq!(c0.into_inner(), 0);
    assert_eq!(c1.into_inner(), 1);
    assert_eq!(c2.into_inner(), 2);

    let problem = problem.set_objective_type(ObjectiveType::Maximize).unwrap();
    assert_eq!(problem.objective_type(), ObjectiveType::Maximize);

    // The column arrays handed to the native insert call.
    let cols = ColumnPayload::build(problem.variables());
    assert_eq!(cols.objs, vec![r(1.0), r(2.0), r(3.0), r(1.0)]);
    assert_eq!(cols.lower_bounds, vec![r(0.0), r(0.0), r(0.0), r(2.0)]);
    assert_eq!(cols.upper_bounds, vec![r(40.0), r(INF), r(INF), r(3.0)]);
    assert_eq!(cols.ctypes, vec![b'C', b'C', b'C', b'I']);
    assert_eq!(cols.names, vec!["x0", "x1", "x2", "x3"]);

    // The sparse row arrays: zero of the nine coefficients is zero, so all
    // survive, rows starting at offsets 0, 4 and 7.
    let rows = RowPayload::build(problem.constraints());
    assert_eq!(rows.row_starts, vec![0, 4, 7]);
    assert_eq!(rows.column_indices, vec![0, 1, 2, 3, 0, 1, 2, 1, 3]);
    assert_eq!(
        rows.coefficients,
        vec![
            r(-1.0),
            r(1.0),
            r(1.0),
            r(10.0),
            r(1.0),
            r(-3.0),
            r(1.0),
            r(1.0),
            r(-3.5)
        ]
    );
    assert_eq!(rows.rhs_values, vec![r(20.0), r(30.0), r(0.0)]);
    assert_eq!(rows.senses, vec![b'L', b'L', b'E']);
    assert_eq!(rows.names, vec![None, None, None]);
}

#[test]
fn mipex1_batch() {
    // The batch route must assign the same identifiers (0, 1, 2, 3) and
    // leave the same stored model as the one-at-a-time route.
    let mut one_by_one = Problem::new("mipex1").unwrap();
    for v in mipex1_variables() {
        one_by_one.add_variable(v).unwrap();
    }

    let mut batch = Problem::new("mipex1").unwrap();
    let ids = batch.add_variables(mipex1_variables()).unwrap();
    let inner: Vec<usize> = ids.iter().map(|id| id.into_inner()).collect();
    assert_eq!(inner, vec![0, 1, 2, 3]);

    assert_eq!(one_by_one.variables().len(), batch.variables().len());
    for (a, b) in one_by_one.variables().iter().zip(batch.variables().iter()) {
        assert_eq!(a.name(), b.name());
        assert_eq!(a.weight(), b.weight());
        assert_eq!(a.lower_bound(), b.lower_bound());
        assert_eq!(a.upper_bound(), b.upper_bound());
        assert_eq!(a.type_(), b.type_());
    }
    assert_eq!(one_by_one.objective_weights(), batch.objective_weights());

    let cons = batch
        .add_constraints(vec![
            Constraint::new(
                ConstraintType::LessThanEq,
                r(20.0),
                None,
                vec![(ids[0], r(-1.0)), (ids[1], r(1.0)), (ids[2], r(1.0)), (ids[3], r(10.0))],
            ),
            Constraint::new(
                ConstraintType::LessThanEq,
                r(30.0),
                None,
                vec![(ids[0], r(1.0)), (ids[1], r(-3.0)), (ids[2], r(1.0))],
            ),
            Constraint::new(
                ConstraintType::Eq,
                r(0.0),
                None,
                vec![(ids[1], r(1.0)), (ids[3], r(-3.5))],
            ),
        ])
        .unwrap();
    let cons_inner: Vec<usize> = cons.iter().map(|id| id.into_inner()).collect();
    assert_eq!(cons_inner, vec![0, 1, 2]);
}

#[test]
fn variable_round_trip() {
    // Weight, bounds and name supplied at construction are recovered
    // unchanged from the problem's stored variable list.
    let mut problem = Problem::new("roundtrip").unwrap();
    let ids = problem.add_variables(mipex1_variables()).unwrap();

    let stored = &problem.variables()[ids[1].into_inner()];
    assert_eq!(stored.name(), "x1");
    assert_eq!(stored.weight(), r(2.0));
    assert_eq!(stored.lower_bound(), r(0.0));
    assert_eq!(stored.upper_bound(), r(INF));
    assert_eq!(stored.type_(), VariableType::Continuous);

    let stored = &problem.variables()[ids[3].into_inner()];
    assert_eq!(stored.name(), "x3");
    assert_eq!(stored.weight(), r(1.0));
    assert_eq!(stored.lower_bound(), r(2.0));
    assert_eq!(stored.upper_bound(), r(3.0));
    assert_eq!(stored.type_(), VariableType::Integer);
}

#[test]
fn add_initial_soln_mismatch() {
    // Mismatched lengths are rejected as an input error, before anything
    // could reach the native layer.
    let mut problem = Problem::new("start").unwrap();
    let ids = problem
        .add_variables(vec![
            Variable::new(VariableType::Continuous, r(1.0), r(0.0), r(1.0), "x0"),
            Variable::new(VariableType::Continuous, r(1.0), r(0.0), r(1.0), "x1"),
        ])
        .unwrap();

    let short = [r(0.5)];
    assert!(matches!(
        problem.add_initial_soln(&[ids[0], ids[1]], &short),
        Err(Error::Input(_))
    ));

    let full = [r(0.5), r(0.5)];
    assert!(problem.add_initial_soln(&[ids[0], ids[1]], &full).is_ok());
}

#[test]
fn add_constraints_empty() {
    // An empty batch is rejected as an input error.
    let mut problem = Problem::new("empty").unwrap();
    assert!(matches!(
        problem.add_constraints(vec![]),
        Err(Error::Input(_))
    ));
}

#[test]
fn names_with_embedded_nul_are_rejected() {
    assert!(matches!(Problem::new("bad\0name"), Err(Error::Input(_))));

    let mut problem = Problem::new("nul").unwrap();
    let bad = Variable::new(VariableType::Continuous, r(1.0), r(0.0), r(1.0), "x\0y");
    assert!(matches!(problem.add_variable(bad), Err(Error::Input(_))));
    assert_eq!(problem.variables().len(), 0);

    let vars = vec![
        Variable::new(VariableType::Continuous, r(1.0), r(0.0), r(1.0), "ok"),
        Variable::new(VariableType::Continuous, r(1.0), r(0.0), r(1.0), "no\0"),
    ];
    assert!(matches!(problem.add_variables(vars), Err(Error::Input(_))));
    assert_eq!(problem.variables().len(), 0);

    let good = problem
        .add_variable(Variable::new(VariableType::Continuous, r(1.0), r(0.0), r(1.0), "x"))
        .unwrap();
    let bad_con = Constraint::new(
        ConstraintType::Eq,
        r(0.0),
        Some("c\0".to_owned()),
        vec![(good, r(1.0))],
    );
    assert!(matches!(problem.add_constraint(bad_con), Err(Error::Input(_))));
    assert_eq!(problem.constraints().len(), 0);
}

#[test]
fn set_objective_overrides_weights() {
    let mut problem = Problem::new("obj").unwrap();
    let ids = problem
        .add_variables(vec![
            Variable::new(VariableType::Continuous, r(1.0), r(0.0), r(1.0), "x0"),
            Variable::new(VariableType::Continuous, r(2.0), r(0.0), r(1.0), "x1"),
            Variable::new(VariableType::Continuous, r(3.0), r(0.0), r(1.0), "x2"),
        ])
        .unwrap();
    assert_eq!(problem.objective_weights(), &vec![r(1.0), r(2.0), r(3.0)]);
    assert_eq!(problem.objective_type(), ObjectiveType::Minimize);

    let problem = problem
        .set_objective(ObjectiveType::Maximize, vec![(ids[2], r(7.0)), (ids[0], r(5.0))])
        .unwrap();
    assert_eq!(problem.objective_weights(), &vec![r(5.0), r(2.0), r(7.0)]);
    assert_eq!(problem.objective_type(), ObjectiveType::Maximize);
    // The stored variable records keep their construction weights.
    assert_eq!(problem.variables()[0].weight(), r(1.0));
    assert_eq!(problem.variables()[2].weight(), r(3.0));
}

#[test]
fn set_objective_rejects_unknown_variable() {
    let mut a = Problem::new("a").unwrap();
    let mut b = Problem::new("b").unwrap();
    a.add_variable(Variable::new(VariableType::Continuous, r(1.0), r(0.0), r(1.0), "x"))
        .unwrap();
    let foreign = a
        .add_variable(Variable::new(VariableType::Continuous, r(1.0), r(0.0), r(1.0), "y"))
        .unwrap();
    b.add_variable(Variable::new(VariableType::Continuous, r(1.0), r(0.0), r(1.0), "x"))
        .unwrap();
    // `foreign` names column 1, which problem `b` does not hold.
    assert!(matches!(
        b.set_objective(ObjectiveType::Minimize, vec![(foreign, r(4.0))]),
        Err(Error::Input(_))
    ));
}

#[test]
fn zero_coefficients_are_elided() {
    let mut problem = Problem::new("elide").unwrap();
    let ids = problem
        .add_variables(vec![
            Variable::new(VariableType::Continuous, r(1.0), r(0.0), r(1.0), "x0"),
            Variable::new(VariableType::Continuous, r(1.0), r(0.0), r(1.0), "x1"),
            Variable::new(VariableType::Continuous, r(1.0), r(0.0), r(1.0), "x2"),
        ])
        .unwrap();
    problem
        .add_constraints(vec![
            Constraint::new(
                ConstraintType::LessThanEq,
                r(1.0),
                None,
                vec![(ids[0], r(0.0)), (ids[1], r(2.0)), (ids[2], r(-0.0))],
            ),
            Constraint::new(
                ConstraintType::GreaterThanEq,
                r(0.0),
                Some("row1".to_owned()),
                vec![(ids[0], r(3.0)), (ids[2], r(0.0))],
            ),
        ])
        .unwrap();

    let rows = RowPayload::build(problem.constraints());
    // Both +0.0 and -0.0 coefficients are dropped; the start offsets count
    // only the surviving entries.
    assert_eq!(rows.row_starts, vec![0, 1]);
    assert_eq!(rows.column_indices, vec![1, 0]);
    assert_eq!(rows.coefficients, vec![r(2.0), r(3.0)]);
    assert_eq!(rows.senses, vec![b'L', b'G']);
    assert_eq!(rows.names, vec![None, Some("row1".to_owned())]);
}

#[test]
fn raw_codes() {
    assert_eq!(ObjectiveType::Minimize.into_raw(), constants::CPX_MIN);
    assert_eq!(ObjectiveType::Maximize.into_raw(), constants::CPX_MAX);
    assert_eq!(ObjectiveType::Minimize.into_raw(), 1);
    assert_eq!(ObjectiveType::Maximize.into_raw(), -1);
    assert_eq!(ProblemType::Linear.into_raw(), 0);
    assert_eq!(ProblemType::MixedInteger.into_raw(), 1);
    assert_eq!(VariableType::Continuous.into_raw(), b'C');
    assert_eq!(VariableType::Binary.into_raw(), b'B');
    assert_eq!(VariableType::Integer.into_raw(), b'I');
    assert_eq!(VariableType::SemiContinuous.into_raw(), b'S');
    assert_eq!(VariableType::SemiInteger.into_raw(), b'N');
    assert_eq!(ConstraintType::LessThanEq.into_raw(), b'L');
    assert_eq!(ConstraintType::Eq.into_raw(), b'E');
    assert_eq!(ConstraintType::GreaterThanEq.into_raw(), b'G');
}
