use core_challenges::registry::{Registry, SolverKind};
use core_challenges::Solver;

#[test]
fn an_empty_registry_knows_nothing() {
    let registry = Registry::new();
    assert_eq!(registry.lookup("pow"), None);
    assert_eq!(registry.lookup(""), None);
}

#[test]
fn a_registered_name_is_found() {
    let mut registry = Registry::new();
    registry.register("pow", SolverKind::ProofOfWork);
    registry.register("dummy", SolverKind::Dummy);
    assert_eq!(registry.lookup("pow"), Some(SolverKind::ProofOfWork));
    assert_eq!(registry.lookup("dummy"), Some(SolverKind::Dummy));
    assert_eq!(registry.lookup("unknown-kind"), None);
    assert_eq!(registry.lookup("po"), None);
    assert_eq!(registry.lookup("pow "), None);
}

#[test]
fn a_later_registration_replaces_an_earlier_one() {
    let mut registry = Registry::new();
    registry.register("x", SolverKind::ProofOfWork);
    registry.register("y", SolverKind::ProofOfWork);
    registry.register("x", SolverKind::Dummy);
    assert_eq!(registry.lookup("x"), Some(SolverKind::Dummy));
    assert_eq!(registry.lookup("y"), Some(SolverKind::ProofOfWork));
}

#[test]
fn a_kind_acts_as_its_solver() {
    let dummy = SolverKind::Dummy.create_challenge(3).unwrap();
    assert_eq!(dummy.name, "dummy");
    assert!(dummy.payload.is_empty());
    assert_eq!(SolverKind::Dummy.solve(&[1]).unwrap().payload, b"solucion_fija_123");
    let pow = SolverKind::ProofOfWork.create_challenge(1).unwrap();
    assert_eq!(pow.name, "pow");
    let solution = SolverKind::ProofOfWork.solve(&pow.payload).unwrap();
    assert!(SolverKind::ProofOfWork.review_solution(&pow.payload, &solution).is_ok());
    assert!(SolverKind::ProofOfWork.solve(&[]).is_err());
    assert!(SolverKind::Dummy.review_solution(&[], &solution).is_ok());
}
