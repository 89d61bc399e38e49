//! The challenge kinds this crate knows.

pub mod dummy_solver;
pub mod proof_of_work;

pub use dummy_solver::DummySolver;
pub use proof_of_work::ProofOfWorkSolver;
