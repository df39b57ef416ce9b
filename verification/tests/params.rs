use cplex_rs::parameters::barrier::limits::{Corrections, Growth, Iteration, ObjRange, Ordering};
use cplex_rs::parameters::barrier::{
    Algorithm, ColNonzeros, ConvergeTol, Crossover, Display, QCPConvergeTol, StartAlg,
};
use cplex_rs::parameters::emphasis::MIP;
use cplex_rs::parameters::mip::limits::{AggForCut, Nodes, Solutions};
use cplex_rs::parameters::preprocessing::{Aggregator, Fill};
use cplex_rs::parameters::read::{APIEncoding, DataCheck};
use cplex_rs::parameters::tolerances::{AbsMIPGap, MIPGap};
use cplex_rs::parameters::{
    Advance, ParallelMode, Parameter, ParameterValue, RandomSeed, ScreenOutput, Threads, TimeLimit,
};
use cplex_rs::{Error, Real};

fn r(x: f64) -> Real {
    Real::from_bits(x.to_bits())
}

#[test]
fn integer_parameters() {
    assert_eq!(Threads(4).value(), ParameterValue::Integer(4));
    assert_eq!(Threads(4).id(), 1067);
    assert_eq!(ScreenOutput(true).value(), ParameterValue::Integer(1));
    assert_eq!(ScreenOutput(false).value(), ParameterValue::Integer(0));
    assert_eq!(ScreenOutput(true).id(), 1035);
    assert_eq!(RandomSeed(42).value(), ParameterValue::Integer(42));
    assert_eq!(RandomSeed(42).id(), 1124);
    assert_eq!(Advance::Unused.value(), ParameterValue::Integer(0));
    assert_eq!(
        Advance::AdvancedBasisOrStartingVector.value(),
        ParameterValue::Integer(2)
    );
    assert_eq!(Advance::Unused.id(), 1001);
    assert_eq!(ParallelMode::Opportunistic.value(), ParameterValue::Integer(-1));
    assert_eq!(ParallelMode::Auto.value(), ParameterValue::Integer(0));
    assert_eq!(ParallelMode::Deterministic.value(), ParameterValue::Integer(1));
    assert_eq!(ParallelMode::Auto.id(), 1109);
}

#[test]
fn time_limit_is_double_seconds() {
    let p = TimeLimit(r(30.0));
    assert_eq!(p.value(), ParameterValue::Double(r(30.0)));
    assert_eq!(p.id(), 1039);
}

#[test]
fn barrier_parameters() {
    assert_eq!(Algorithm::Default.value(), ParameterValue::Integer(0));
    assert_eq!(Algorithm::StandardBarrier.value(), ParameterValue::Integer(3));
    assert_eq!(Algorithm::Default.id(), 3007);
    assert_eq!(ColNonzeros(12).value(), ParameterValue::Integer(12));
    assert_eq!(ColNonzeros(12).id(), 3009);
    assert_eq!(Crossover::PrimalCrossover.value(), ParameterValue::Integer(1));
    assert_eq!(Crossover::PrimalCrossover.id(), 3018);
    assert_eq!(Display::Off.value(), ParameterValue::Integer(0));
    assert_eq!(Display::Diagnostic.value(), ParameterValue::Integer(2));
    assert_eq!(Display::Off.id(), 3010);
    assert_eq!(StartAlg::DualIs0.value(), ParameterValue::Integer(1));
    assert_eq!(
        StartAlg::AverageOfPrimalEstimateEstimateDual.value(),
        ParameterValue::Integer(4)
    );
    assert_eq!(StartAlg::DualIs0.id(), 3017);
}

#[test]
fn barrier_limit_parameters() {
    assert_eq!(Iteration(500).value(), ParameterValue::Long(500));
    assert_eq!(Iteration(500).id(), 3012);
    assert_eq!(Corrections::Automatic.value(), ParameterValue::Long(-1));
    assert_eq!(Corrections::Number(9).value(), ParameterValue::Long(9));
    assert_eq!(Corrections::Automatic.id(), 3013);
    assert_eq!(Ordering::NestedDissection.value(), ParameterValue::Integer(3));
    assert_eq!(Ordering::Automatic.id(), 3014);
}

#[test]
fn mip_parameters() {
    assert_eq!(MIP::Balanced.value(), ParameterValue::Integer(0));
    assert_eq!(MIP::Heuristic.value(), ParameterValue::Integer(5));
    assert_eq!(MIP::Balanced.id(), 2058);
    assert_eq!(AggForCut(3).value(), ParameterValue::Integer(3));
    assert_eq!(AggForCut(3).id(), 2054);
    assert_eq!(Nodes(1000).value(), ParameterValue::Long(1000));
    assert_eq!(Nodes(1000).id(), 2017);
}

#[test]
fn solutions_limit_must_be_positive() {
    assert!(matches!(Solutions::new(0), Err(Error::Input(_))));
    let s = Solutions::new(5).unwrap();
    assert_eq!(s.value(), ParameterValue::Long(5));
    assert_eq!(s.id(), 2015);
}

#[test]
fn preprocessing_parameters() {
    assert_eq!(Fill(10).value(), ParameterValue::Integer(10));
    assert_eq!(Fill(10).id(), 1002);
    assert_eq!(Aggregator::Automatic.value(), ParameterValue::Integer(-1));
    assert_eq!(Aggregator::NbOfTimesToApply(2).value(), ParameterValue::Integer(2));
    assert_eq!(Aggregator::Automatic.id(), 1003);
}

#[test]
fn read_parameters() {
    assert_eq!(APIEncoding("UTF-8").value(), ParameterValue::Text("UTF-8"));
    assert_eq!(APIEncoding("UTF-8").id(), 1130);
    assert_eq!(DataCheck::Off.value(), ParameterValue::Integer(0));
    assert_eq!(DataCheck::Assist.value(), ParameterValue::Integer(2));
    assert_eq!(DataCheck::Off.id(), 1056);
}

#[test]
fn converge_tolerances_reject_negatives() {
    assert!(matches!(ConvergeTol::new(r(-1.0)), Err(Error::Input(_))));
    let t = ConvergeTol::new(r(0.5)).unwrap();
    assert_eq!(t.value(), ParameterValue::Double(r(0.5)));
    assert_eq!(t.id(), 3002);

    assert!(matches!(QCPConvergeTol::new(r(-0.001)), Err(Error::Input(_))));
    let t = QCPConvergeTol::new(r(0.0)).unwrap();
    assert_eq!(t.value(), ParameterValue::Double(r(0.0)));
    assert_eq!(t.id(), 4062);

    assert!(matches!(ObjRange::new(r(-2.0)), Err(Error::Input(_))));
    let o = ObjRange::new(r(1.0e10)).unwrap();
    assert_eq!(o.value(), ParameterValue::Double(r(1.0e10)));
    assert_eq!(o.id(), 3004);

    assert!(matches!(AbsMIPGap::new(r(-0.5)), Err(Error::Input(_))));
    let g = AbsMIPGap::new(r(0.25)).unwrap();
    assert_eq!(g.value(), ParameterValue::Double(r(0.25)));
    assert_eq!(g.id(), 2008);
}

#[test]
fn growth_rejects_below_one() {
    assert!(matches!(Growth::new(r(0.5)), Err(Error::Input(_))));
    assert!(matches!(Growth::new(r(0.0)), Err(Error::Input(_))));
    assert!(matches!(Growth::new(r(-3.0)), Err(Error::Input(_))));
    let g = Growth::new(r(1.0)).unwrap();
    assert_eq!(g.value(), ParameterValue::Double(r(1.0)));
    let g = Growth::new(r(1.0e12)).unwrap();
    assert_eq!(g.value(), ParameterValue::Double(r(1.0e12)));
    assert_eq!(g.id(), 3003);
}

#[test]
fn mip_gap_requires_unit_interval() {
    assert!(matches!(MIPGap::new(r(-0.1)), Err(Error::Input(_))));
    assert!(matches!(MIPGap::new(r(1.5)), Err(Error::Input(_))));
    assert!(matches!(MIPGap::new(r(f64::NAN)), Err(Error::Input(_))));
    let g = MIPGap::new(r(0.0)).unwrap();
    assert_eq!(g.value(), ParameterValue::Double(r(0.0)));
    let g = MIPGap::new(r(1.0)).unwrap();
    assert_eq!(g.value(), ParameterValue::Double(r(1.0)));
    let g = MIPGap::new(r(0.05)).unwrap();
    assert_eq!(g.value(), ParameterValue::Double(r(0.05)));
    assert_eq!(g.id(), 2009);
}
