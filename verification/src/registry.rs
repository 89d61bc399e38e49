//! The solvers a peer knows, by the name that challenges carry.

use crate::solvers::{DummySolver, ProofOfWorkSolver};
use crate::{Challenge, ChallengeView, Solution, Solver, SolverError, SolverErrorView};
use vstd::prelude::*;
use vstd::string::*;

verus! {

/// The closed set of solver kinds; each stands for the solver of that kind.
#[derive(Debug, Clone, Copy, PartialEq, Eq, Structural)]
pub enum SolverKind {
    ProofOfWork,
    Dummy,
}

impl Solver for SolverKind {
    open spec fn reads_challenge(&self, payload: Seq<u8>) -> bool {
        match self {
            SolverKind::ProofOfWork => ProofOfWorkSolver.reads_challenge(payload),
            SolverKind::Dummy => DummySolver.reads_challenge(payload),
        }
    }

    open spec fn reads_solution(&self, payload: Seq<u8>) -> bool {
        match self {
            SolverKind::ProofOfWork => ProofOfWorkSolver.reads_solution(payload),
            SolverKind::Dummy => DummySolver.reads_solution(payload),
        }
    }

    open spec fn accepts(&self, challenge: Seq<u8>, solution: Seq<u8>) -> bool {
        match self {
            SolverKind::ProofOfWork => ProofOfWorkSolver.accepts(challenge, solution),
            SolverKind::Dummy => DummySolver.accepts(challenge, solution),
        }
    }

    open spec fn solvable(&self, challenge: Seq<u8>) -> bool {
        match self {
            SolverKind::ProofOfWork => ProofOfWorkSolver.solvable(challenge),
            SolverKind::Dummy => DummySolver.solvable(challenge),
        }
    }

    open spec fn posed(&self, difficulty: u32) -> ChallengeView {
        match self {
            SolverKind::ProofOfWork => ProofOfWorkSolver.posed(difficulty),
            SolverKind::Dummy => DummySolver.posed(difficulty),
        }
    }

    open spec fn answers(&self, challenge: Seq<u8>, solution: Seq<u8>) -> bool {
        match self {
            SolverKind::ProofOfWork => ProofOfWorkSolver.answers(challenge, solution),
            SolverKind::Dummy => DummySolver.answers(challenge, solution),
        }
    }

    open spec fn verdict(&self, challenge: Seq<u8>, solution: Seq<u8>) -> Result<
        (),
        SolverErrorView,
    > {
        match self {
            SolverKind::ProofOfWork => ProofOfWorkSolver.verdict(challenge, solution),
            SolverKind::Dummy => DummySolver.verdict(challenge, solution),
        }
    }

    proof fn lemma_verdict(&self, challenge: Seq<u8>, solution: Seq<u8>) {
        match self {
            SolverKind::ProofOfWork => ProofOfWorkSolver.lemma_verdict(challenge, solution),
            SolverKind::Dummy => DummySolver.lemma_verdict(challenge, solution),
        }
    }

    proof fn lemma_answer_passes_review(&self, challenge: Seq<u8>, solution: Seq<u8>) {
        match self {
            SolverKind::ProofOfWork => ProofOfWorkSolver.lemma_answer_passes_review(
                challenge,
                solution,
            ),
            SolverKind::Dummy => DummySolver.lemma_answer_passes_review(challenge, solution),
        }
    }

    fn solve(&self, payload: &[u8]) -> (r: Result<Solution, SolverError>) {
        match self {
            SolverKind::ProofOfWork => ProofOfWorkSolver.solve(payload),
            SolverKind::Dummy => DummySolver.solve(payload),
        }
    }

    fn create_challenge(&self, difficulty: u32) -> (r: Result<Challenge, SolverError>) {
        match self {
            SolverKind::ProofOfWork => ProofOfWorkSolver.create_challenge(difficulty),
            SolverKind::Dummy => DummySolver.create_challenge(difficulty),
        }
    }

    fn review_solution(&self, challenge_payload: &[u8], solution: &Solution) -> (r: Result<
        (),
        SolverError,
    >) {
        match self {
            SolverKind::ProofOfWork => ProofOfWorkSolver.review_solution(
                challenge_payload,
                solution,
            ),
            SolverKind::Dummy => DummySolver.review_solution(challenge_payload, solution),
        }
    }
}

/// What a sequence of registrations amounts to: each name stands for the
/// kind it was registered with last.
pub open spec fn bindings(entries: Seq<(Seq<char>, SolverKind)>) -> Map<Seq<char>, SolverKind>
    decreases entries.len(),
{
    if entries.len() == 0 {
        Map::empty()
    } else {
        bindings(entries.drop_last()).insert(entries.last().0, entries.last().1)
    }
}

/// A map from challenge names to solver kinds. Filled at startup and only
/// read afterwards.
#[derive(Debug, Clone)]
pub struct Registry {
    entries: Vec<(String, SolverKind)>,
}

impl Registry {
    /// The registrations in the order they were made.
    pub closed spec fn history(&self) -> Seq<(Seq<char>, SolverKind)> {
        self.entries@.map_values(|e: (String, SolverKind)| (e.0@, e.1))
    }
}

impl View for Registry {
    type V = Map<Seq<char>, SolverKind>;

    closed spec fn view(&self) -> Map<Seq<char>, SolverKind> {
        bindings(self.history())
    }
}

impl Registry {
    /// The registry that knows no solver.
    pub fn new() -> (r: Registry)
        ensures
            r@ == Map::<Seq<char>, SolverKind>::empty(),
    {
        let r = Registry { entries: Vec::new() };
        assert(r.history() =~= Seq::empty());
        r
    }

    /// Binds `name` to `kind`; an earlier binding of the name is replaced.
    pub fn register(&mut self, name: &str, kind: SolverKind)
        ensures
            final(self)@ == old(self)@.insert(name@, kind),
    {
        let ghost before = self.history();
        self.entries.push((String::from_str(name), kind));
        assert(self.history().drop_last() =~= before);
    }

    /// The kind bound to `name`, if any.
    pub fn lookup(&self, name: &str) -> (r: Option<SolverKind>)
        ensures
            r == if self@.contains_key(name@) {
                Some(self@[name@])
            } else {
                None
            },
    {
        let ghost all = self.history();
        let wanted = String::from_str(name);
        let mut i = self.entries.len();
        assert(all.take(i as int) =~= all);
        while i > 0
            invariant
                i <= all.len(),
                all == self.history(),
                wanted@ == name@,
                bindings(all).contains_key(name@) == bindings(all.take(i as int)).contains_key(
                    name@,
                ),
                bindings(all).contains_key(name@) ==> bindings(all)[name@] == bindings(
                    all.take(i as int),
                )[name@],
            decreases i,
        {
            i -= 1;
            assert(all.take(i + 1).drop_last() =~= all.take(i as int));
            if self.entries[i].0 == wanted {
                return Some(self.entries[i].1);
            }
        }
        None
    }
}

} // verus!
