//! A solver that computes nothing: fixed challenge, fixed answer, every
//! answer accepted. It stands in where the protocol is exercised without
//! the cost of a real search.

use crate::{Challenge, ChallengeView, Solution, Solver, SolverError, SolverErrorView};
use vstd::prelude::*;
use vstd::slice::slice_to_vec;
use vstd::string::*;
use vstd::utf8::encode_utf8;

verus! {

/// The solver without work.
pub struct DummySolver;

impl DummySolver {
    /// The payload of every solution this solver gives.
    pub open spec fn fixed_solution() -> Seq<u8> {
        encode_utf8("solucion_fija_123"@)
    }
}

impl Solver for DummySolver {
    open spec fn reads_challenge(&self, payload: Seq<u8>) -> bool {
        true
    }

    open spec fn reads_solution(&self, payload: Seq<u8>) -> bool {
        true
    }

    open spec fn accepts(&self, challenge: Seq<u8>, solution: Seq<u8>) -> bool {
        true
    }

    open spec fn solvable(&self, challenge: Seq<u8>) -> bool {
        true
    }

    open spec fn posed(&self, difficulty: u32) -> ChallengeView {
        ChallengeView { name: "dummy"@, payload: Seq::empty() }
    }

    open spec fn answers(&self, challenge: Seq<u8>, solution: Seq<u8>) -> bool {
        solution == Self::fixed_solution()
    }

    open spec fn verdict(&self, challenge: Seq<u8>, solution: Seq<u8>) -> Result<
        (),
        SolverErrorView,
    > {
        Ok(())
    }

    proof fn lemma_verdict(&self, challenge: Seq<u8>, solution: Seq<u8>) {
    }

    proof fn lemma_answer_passes_review(&self, challenge: Seq<u8>, solution: Seq<u8>) {
    }

    /// Returns the fixed solution, whatever the payload.
    fn solve(&self, _payload: &[u8]) -> (r: Result<Solution, SolverError>)
        ensures
            r matches Ok(s) && s@ == Self::fixed_solution(),
    {
        Ok(Solution { payload: slice_to_vec("solucion_fija_123".as_bytes()) })
    }

    /// Returns the challenge named `dummy`, with an empty payload.
    fn create_challenge(&self, _difficulty: u32) -> (r: Result<Challenge, SolverError>) {
        Ok(Challenge { name: String::from_str("dummy"), payload: Vec::new() })
    }

    /// Accepts.
    fn review_solution(&self, _challenge_payload: &[u8], _solution: &Solution) -> (r: Result<
        (),
        SolverError,
    >) {
        Ok(())
    }
}

} // verus!
