//! The core of a two-party challenge duel: the messages both peers exchange,
//! the solvers that pose, answer and judge challenges, and the turn machine
//! that drives one connection.

use vstd::prelude::*;
use vstd::string::*;

pub mod decimal;
pub mod duel;
pub mod frame;
pub mod hashing;
pub mod message;
pub mod registry;
pub mod solvers;
pub mod wire;

verus! {

/// Why a solver operation did not produce a result.
#[derive(Debug, Clone, PartialEq, Eq)]
pub enum SolverError {
    /// A payload did not have the shape the solver expects.
    InvalidInput(String),
    /// The input was well formed, but no answer was found or the answer is wrong.
    ComputationFailed(String),
}

/// A named task one peer poses to the other.
#[derive(Debug, Clone, PartialEq, Eq)]
pub struct Challenge {
    /// Selects the solver kind.
    pub name: String,
    /// Solver-specific encoded data.
    pub payload: Vec<u8>,
}

/// An answer to one challenge.
#[derive(Debug, Clone, PartialEq, Eq)]
pub struct Solution {
    /// Solver-specific encoded data.
    pub payload: Vec<u8>,
}

/// The protocol envelope: exactly one of these travels in each frame.
#[derive(Debug, Clone, PartialEq, Eq)]
pub enum P2PMessage {
    Challenge(Challenge),
    Reply(Solution),
    YouWin(String),
}

/// The mathematical content of a [`Challenge`].
pub struct ChallengeView {
    pub name: Seq<char>,
    pub payload: Seq<u8>,
}

/// The mathematical content of a [`P2PMessage`].
pub enum MessageView {
    Challenge(ChallengeView),
    Reply(Seq<u8>),
    YouWin(Seq<char>),
}

impl View for Challenge {
    type V = ChallengeView;

    open spec fn view(&self) -> ChallengeView {
        ChallengeView { name: self.name@, payload: self.payload@ }
    }
}

impl View for Solution {
    type V = Seq<u8>;

    open spec fn view(&self) -> Seq<u8> {
        self.payload@
    }
}

impl View for P2PMessage {
    type V = MessageView;

    open spec fn view(&self) -> MessageView {
        match self {
            P2PMessage::Challenge(c) => MessageView::Challenge(c@),
            P2PMessage::Reply(s) => MessageView::Reply(s@),
            P2PMessage::YouWin(reason) => MessageView::YouWin(reason@),
        }
    }
}

/// The mathematical content of a [`SolverError`].
pub enum SolverErrorView {
    InvalidInput(Seq<char>),
    ComputationFailed(Seq<char>),
}

impl View for SolverError {
    type V = SolverErrorView;

    open spec fn view(&self) -> SolverErrorView {
        match self {
            SolverError::InvalidInput(detail) => SolverErrorView::InvalidInput(detail@),
            SolverError::ComputationFailed(detail) => SolverErrorView::ComputationFailed(
                detail@,
            ),
        }
    }
}

impl SolverErrorView {
    /// The error as one line of text: its kind, then its detail.
    pub open spec fn text(self) -> Seq<char> {
        match self {
            SolverErrorView::InvalidInput(detail) => "Invalid Input: "@ + detail,
            SolverErrorView::ComputationFailed(detail) => "Computation Failed: "@ + detail,
        }
    }
}

impl SolverError {
    /// The error as one line of text: its kind, then its detail.
    pub open spec fn text(&self) -> Seq<char> {
        self@.text()
    }

    /// Writes the error as one line of text.
    pub fn to_text(&self) -> (r: String)
        ensures
            r@ == self.text(),
    {
        match self {
            SolverError::InvalidInput(detail) => String::from_str("Invalid Input: ").concat(
                detail.as_str(),
            ),
            SolverError::ComputationFailed(detail) => String::from_str(
                "Computation Failed: ",
            ).concat(detail.as_str()),
        }
    }
}

/// One kind of challenge: how to pose it, how to answer it and how to judge
/// an answer.
pub trait Solver {
    /// The payload has the shape this solver gives its challenges.
    spec fn reads_challenge(&self, payload: Seq<u8>) -> bool;

    /// The payload has the shape this solver gives its solutions.
    spec fn reads_solution(&self, payload: Seq<u8>) -> bool;

    /// The verdict on a solution, both payloads being readable.
    spec fn accepts(&self, challenge: Seq<u8>, solution: Seq<u8>) -> bool;

    /// A readable challenge has an acceptable solution within its budget.
    spec fn solvable(&self, challenge: Seq<u8>) -> bool;

    /// The challenge this solver poses at a difficulty.
    spec fn posed(&self, difficulty: u32) -> ChallengeView;

    /// The solution is one that `solve` may return for the challenge.
    spec fn answers(&self, challenge: Seq<u8>, solution: Seq<u8>) -> bool;

    /// What the review of a solution against a challenge returns.
    spec fn verdict(&self, challenge: Seq<u8>, solution: Seq<u8>) -> Result<
        (),
        SolverErrorView,
    >;

    /// The review passes exactly the readable solutions of readable
    /// challenges that the solver accepts, and fails with `InvalidInput`
    /// exactly when a payload is unreadable.
    proof fn lemma_verdict(&self, challenge: Seq<u8>, solution: Seq<u8>)
        ensures
            self.verdict(challenge, solution) is Ok <==> self.reads_challenge(challenge)
                && self.reads_solution(solution) && self.accepts(challenge, solution),
            self.verdict(challenge, solution) matches Err(e) ==> (e is InvalidInput <==> !(
            self.reads_challenge(challenge) && self.reads_solution(solution))),
    ;

    /// Solving and reviewing agree: what `solve` may return for a readable
    /// challenge passes the review of that challenge.
    proof fn lemma_answer_passes_review(&self, challenge: Seq<u8>, solution: Seq<u8>)
        requires
            self.reads_challenge(challenge),
            self.answers(challenge, solution),
        ensures
            self.verdict(challenge, solution) is Ok,
    ;

    /// Looks for a solution of the challenge in `payload`. Fails with
    /// `InvalidInput` when the payload is unreadable, with
    /// `ComputationFailed` when there is nothing to find within the budget.
    /// Whatever it returns passes `review_solution`.
    fn solve(&self, payload: &[u8]) -> (r: Result<Solution, SolverError>)
        ensures
            r is Ok <==> self.reads_challenge(payload@) && self.solvable(payload@),
            r matches Ok(s) ==> self.answers(payload@, s@) && self.reads_solution(s@)
                && self.accepts(payload@, s@),
            r matches Err(e) ==> (e is InvalidInput <==> !self.reads_challenge(payload@)),
    ;

    /// Poses a challenge at `difficulty`; the result depends on nothing else.
    fn create_challenge(&self, difficulty: u32) -> (r: Result<Challenge, SolverError>)
        ensures
            r matches Ok(c) && c@ == self.posed(difficulty),
    ;

    /// Judges a solution against the challenge it answers. The verdict is a
    /// function of the two payloads alone. Fails with `InvalidInput` when
    /// either is unreadable, with `ComputationFailed` when the solution is
    /// wrong.
    fn review_solution(&self, challenge_payload: &[u8], solution: &Solution) -> (r: Result<
        (),
        SolverError,
    >)
        ensures
            match r {
                Ok(_) => self.verdict(challenge_payload@, solution@) is Ok,
                Err(e) => self.verdict(challenge_payload@, solution@) == Err::<
                    (),
                    SolverErrorView,
                >(e@),
            },
            r is Ok <==> self.reads_challenge(challenge_payload@) && self.reads_solution(
                solution@,
            ) && self.accepts(challenge_payload@, solution@),
            r matches Err(e) ==> (e is InvalidInput <==> !(self.reads_challenge(
                challenge_payload@,
            ) && self.reads_solution(solution@))),
    ;
}

} // verus!
