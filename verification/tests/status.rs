use cplex_rs::constants;
use cplex_rs::errors::{
    bounded_from_ray_probe, classify_solve_status, feasible_from_soln_probe, message_prefix, Cplex,
    Error, Input,
};
use cplex_rs::logging::StreamType;
use cplex_rs::{Real, Solution, Variable, VariableType};

fn r(x: f64) -> Real {
    Real::from_bits(x.to_bits())
}

#[test]
fn unfeasible_status() {
    // A contradictory model ends in the infeasible status (or the combined
    // infeasible-or-unbounded verdict); both must classify as an
    // `Unfeasible` error, never a generic one.
    for code in [constants::CPX_STAT_INFEASIBLE, constants::CPX_STAT_INForUNBD] {
        let classified = classify_solve_status(code);
        match classified {
            Some(Cplex::Unfeasible { code: c, message }) => {
                assert_eq!(c, code);
                assert_eq!(message, "Unfeasible problem");
            }
            other => panic!("expected an unfeasible classification, got {:?}", other),
        }
    }
}

#[test]
fn unbounded_status() {
    // A model free to grow without limit ends in one of the two unbounded
    // statuses; both must classify as an `Unbounded` error.
    for code in [constants::CPX_STAT_UNBOUNDED, constants::CPXMIP_UNBOUNDED] {
        let classified = classify_solve_status(code);
        match classified {
            Some(Cplex::Unbounded { code: c, message }) => {
                assert_eq!(c, code);
                assert_eq!(message, "Unbounded problem");
            }
            other => panic!("expected an unbounded classification, got {:?}", other),
        }
    }
}

#[test]
fn successful_status_reads_solution() {
    // An optimal status classifies as no error at all.
    assert!(classify_solve_status(1).is_none());
    assert!(classify_solve_status(101).is_none());
}

#[test]
fn probe_classification() {
    // The probes' verdicts decide the error category: infeasibility first,
    // then unboundedness, else a generic error.
    let e = Cplex::from_probes(77, "m".to_owned(), false, true);
    assert!(matches!(e, Cplex::Unfeasible { code: 77, .. }));
    let e = Cplex::from_probes(77, "m".to_owned(), false, false);
    assert!(matches!(e, Cplex::Unfeasible { code: 77, .. }));
    let e = Cplex::from_probes(77, "m".to_owned(), true, false);
    assert!(matches!(e, Cplex::Unbounded { code: 77, .. }));
    let e = Cplex::from_probes(77, "m".to_owned(), true, true);
    assert!(matches!(e, Cplex::Other { code: 77, .. }));
}

#[test]
fn probe_fallbacks_assume_well_behaved() {
    // A probe that itself fails must not over-report: the model is then
    // assumed bounded, and assumed feasible.
    assert!(bounded_from_ray_probe(1, 5));
    assert!(feasible_from_soln_probe(1, 0));
    // A successful probe is believed.
    assert!(bounded_from_ray_probe(0, -1));
    assert!(!bounded_from_ray_probe(0, 3));
    assert!(feasible_from_soln_probe(0, 1));
    assert!(!feasible_from_soln_probe(0, 0));
}

#[test]
fn env_error_is_other() {
    let e = Cplex::env_error(-5);
    match e {
        Cplex::Other { code, message } => {
            assert_eq!(code, -5);
            assert_eq!(message, "Error encountered when constructing CPLEX env");
        }
        other => panic!("expected a generic error, got {:?}", other),
    }
}

#[test]
fn error_conversions() {
    let i = Input::from_message("bad".to_owned());
    assert!(matches!(Error::from(i), Error::Input(Input { .. })));
    let c = Cplex::Other { code: 1, message: "m".to_owned() };
    assert!(matches!(Error::from(c), Error::Cplex(Cplex::Other { .. })));
}

#[test]
fn stream_indices() {
    assert_eq!(StreamType::Results.as_index(), 0);
    assert_eq!(StreamType::Warning.as_index(), 1);
    assert_eq!(StreamType::Error.as_index(), 2);
    assert_eq!(StreamType::Log.as_index(), 3);
}

#[test]
fn message_buffer_extraction() {
    // Only a buffer with its single nul at the very end yields a message.
    assert_eq!(message_prefix(&b"CPLEX Error  1217\0".to_vec()), Some(b"CPLEX Error  1217".to_vec()));
    assert_eq!(message_prefix(&b"\0".to_vec()), Some(Vec::new()));
    // A zero-padded buffer holds interior nuls and is rejected, as is a
    // buffer without a terminator, or an empty one.
    assert_eq!(message_prefix(&b"hi\0\0".to_vec()), None);
    assert_eq!(message_prefix(&b"hi".to_vec()), None);
    assert_eq!(message_prefix(&Vec::new()), None);
}

#[test]
fn solution_round_trip() {
    let vars = vec![Variable::new(VariableType::Continuous, r(1.0), r(0.0), r(40.0), "x0")];
    let s = Solution::new(vars, vec![r(40.0)], r(122.5));
    assert_eq!(s.objective_value(), r(122.5));
    assert_eq!(s.variable_values(), &vec![r(40.0)]);
    assert_eq!(s.variables().len(), 1);
    assert_eq!(s.variables()[0].name(), "x0");
}

#[test]
fn real_predicates_match_ieee_comparisons() {
    // The bit-pattern predicates must agree with the floating-point
    // comparisons they stand for, across signs, zeros, infinities and NaN.
    let samples: [f64; 12] = [
        0.0,
        -0.0,
        0.5,
        1.0,
        -1.0,
        1.5,
        -1.0e-300,
        1.0e20,
        f64::INFINITY,
        f64::NEG_INFINITY,
        f64::NAN,
        -f64::NAN,
    ];
    for v in samples {
        let b = Real::from_bits(v.to_bits());
        assert_eq!(b.is_zero(), v == 0.0, "is_zero disagrees at {v}");
        assert_eq!(b.lt_zero(), v < 0.0, "lt_zero disagrees at {v}");
        assert_eq!(b.lt_one(), v < 1.0, "lt_one disagrees at {v}");
        assert_eq!(
            b.in_unit_interval(),
            (0.0..=1.0).contains(&v),
            "in_unit_interval disagrees at {v}"
        );
        assert_eq!(b.bits(), v.to_bits());
    }
}
