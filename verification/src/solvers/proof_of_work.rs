//! The proof-of-work challenge: find a nonce that gives the challenge's data
//! a SHA-256 digest whose hexadecimal form starts with enough zeros.

use crate::decimal::{decimal, decimal_string, lemma_decimal_is_short_ascii};
use crate::hashing::{has_zero_prefix, hex_lower, sha256, sha256_hex, starts_with_zeros};
use crate::wire::{
    lemma_text_round_trip, lemma_varint_round_trip, put_text, put_u32, put_u64, take_text,
    take_u32, take_u64, text_field, text_parse, u32_parse, u64_parse, varint, WireError,
};
use crate::{Challenge, ChallengeView, Solution, Solver, SolverError, SolverErrorView};
use rayon::iter::{IntoParallelIterator, ParallelIterator};
use vstd::bytes::{spec_u64_to_le_bytes, u64_to_le_bytes};
use vstd::prelude::*;
use vstd::slice::slice_to_vec;
use vstd::string::*;
use vstd::utf8::{encode_utf8, is_ascii_chars, is_ascii_chars_encode_utf8};

verus! {

/// The number of nonces a posed challenge allows its solver to try.
pub const SEARCH_BUDGET: u64 = 500_000_000;

/// The search problem inside a proof-of-work challenge.
#[derive(Debug, Clone, PartialEq, Eq)]
pub struct PoWInput {
    /// The text that is hashed together with the nonce.
    pub data: String,
    /// How many leading `'0'` the hexadecimal digest must have.
    pub difficulty: u32,
    /// The first nonce of the search.
    pub start_nonce: u64,
    /// How many nonces, from the first on, may be tried.
    pub max_attempts: u64,
}

/// The answer to a proof-of-work challenge.
#[derive(Debug, Clone, Copy, PartialEq, Eq)]
pub struct PoWOutput {
    pub nonce: u64,
}

/// The mathematical content of a [`PoWInput`].
pub struct PoWInputView {
    pub data: Seq<char>,
    pub difficulty: u32,
    pub start_nonce: u64,
    pub max_attempts: u64,
}

impl View for PoWInput {
    type V = PoWInputView;

    open spec fn view(&self) -> PoWInputView {
        PoWInputView {
            data: self.data@,
            difficulty: self.difficulty,
            start_nonce: self.start_nonce,
            max_attempts: self.max_attempts,
        }
    }
}

/// The bytes that are hashed for a nonce: the data as UTF-8, then the nonce
/// as eight bytes, least significant first.
pub open spec fn preimage(data: Seq<char>, nonce: u64) -> Seq<u8> {
    encode_utf8(data) + spec_u64_to_le_bytes(nonce)
}

/// The hexadecimal digest that a nonce gives the data.
pub open spec fn digest_text(data: Seq<char>, nonce: u64) -> Seq<char> {
    hex_lower(sha256(preimage(data, nonce)))
}

/// The predicate of the challenge: the digest starts with `difficulty`
/// zeros.
pub open spec fn nonce_accepted(input: PoWInputView, nonce: u64) -> bool {
    has_zero_prefix(digest_text(input.data, nonce), input.difficulty as nat)
}

/// The nonce is one of those the challenge allows: `max_attempts` nonces
/// from `start_nonce` on.
pub open spec fn within_budget(input: PoWInputView, nonce: u64) -> bool {
    input.start_nonce <= nonce < input.start_nonce + input.max_attempts
}

/// A search problem on the wire: its fields in order of declaration.
pub open spec fn input_bytes(input: PoWInputView) -> Seq<u8> {
    text_field(input.data) + varint(input.difficulty as nat) + varint(input.start_nonce as nat)
        + varint(input.max_attempts as nat)
}

/// What reading a search problem from the start of `b` gives; bytes behind
/// it are ignored.
pub open spec fn input_parse(b: Seq<u8>) -> Result<PoWInputView, WireError> {
    match text_parse(b) {
        Err(e) => Err(e),
        Ok((data, n1)) => match u32_parse(b.skip(n1 as int)) {
            Err(e) => Err(e),
            Ok((difficulty, k2)) => match u64_parse(b.skip((n1 + k2) as int)) {
                Err(e) => Err(e),
                Ok((start_nonce, k3)) => match u64_parse(b.skip((n1 + k2 + k3) as int)) {
                    Err(e) => Err(e),
                    Ok((max_attempts, _)) => Ok(
                        PoWInputView { data, difficulty, start_nonce, max_attempts },
                    ),
                },
            },
        },
    }
}

/// An answer on the wire: its nonce.
pub open spec fn output_bytes(nonce: u64) -> Seq<u8> {
    varint(nonce as nat)
}

/// What reading an answer from the start of `b` gives; bytes behind it are
/// ignored.
pub open spec fn output_parse(b: Seq<u8>) -> Result<u64, WireError> {
    match u64_parse(b) {
        Err(e) => Err(e),
        Ok((nonce, _)) => Ok(nonce),
    }
}

/// A written search problem is read back unchanged.
pub proof fn lemma_input_round_trip(input: PoWInputView)
    requires
        encode_utf8(input.data).len() <= u64::MAX,
    ensures
        input_parse(input_bytes(input)) == Ok::<PoWInputView, WireError>(input),
{
    let f1 = text_field(input.data);
    let f2 = varint(input.difficulty as nat);
    let f3 = varint(input.start_nonce as nat);
    let f4 = varint(input.max_attempts as nat);
    let all = input_bytes(input);
    lemma_text_round_trip(input.data, f2 + f3 + f4);
    assert(all =~= f1 + (f2 + f3 + f4));
    lemma_varint_round_trip(input.difficulty as nat, f3 + f4, false);
    assert(all.skip(f1.len() as int) =~= f2 + (f3 + f4));
    lemma_varint_round_trip(input.start_nonce as nat, f4, true);
    assert(all.skip((f1.len() + f2.len()) as int) =~= f3 + f4);
    lemma_varint_round_trip(input.max_attempts as nat, Seq::empty(), true);
    assert(all.skip((f1.len() + f2.len() + f3.len()) as int) =~= f4 + Seq::<u8>::empty());
}

/// A written answer is read back unchanged.
pub proof fn lemma_output_round_trip(nonce: u64)
    ensures
        output_parse(output_bytes(nonce)) == Ok::<u64, WireError>(nonce),
{
    lemma_varint_round_trip(nonce as nat, Seq::empty(), true);
    assert(output_bytes(nonce) =~= varint(nonce as nat) + Seq::<u8>::empty());
}

impl PoWInputView {
    /// The invariant of a posed search problem: there is at least one nonce
    /// to try.
    pub open spec fn well_formed(self) -> bool {
        self.max_attempts > 0
    }
}

impl PoWInput {

    /// Writes the search problem as a challenge payload.
    pub fn encode(&self) -> (r: Vec<u8>)
        ensures
            r@ == input_bytes(self@),
            input_parse(r@) == Ok::<PoWInputView, WireError>(self@),
    {
        let mut out: Vec<u8> = Vec::new();
        put_text(&mut out, self.data.as_str());
        put_u32(&mut out, self.difficulty);
        put_u64(&mut out, self.start_nonce);
        put_u64(&mut out, self.max_attempts);
        proof {
            assert(out@ =~= input_bytes(self@));
            lemma_input_round_trip(self@);
        }
        out
    }

    /// Reads a search problem from the start of a challenge payload.
    pub fn decode(payload: &[u8]) -> (r: Result<PoWInput, WireError>)
        ensures
            match input_parse(payload@) {
                Ok(input) => r is Ok && r->Ok_0@ == input,
                Err(e) => r == Err::<PoWInput, WireError>(e),
            },
    {
        assert(payload@.skip(0) =~= payload@);
        let (data, at) = match take_text(payload, 0) {
            Ok(p) => p,
            Err(e) => { return Err(e); },
        };
        let (difficulty, at) = match take_u32(payload, at) {
            Ok(p) => p,
            Err(e) => { return Err(e); },
        };
        let (start_nonce, at) = match take_u64(payload, at) {
            Ok(p) => p,
            Err(e) => { return Err(e); },
        };
        let (max_attempts, _) = match take_u64(payload, at) {
            Ok(p) => p,
            Err(e) => { return Err(e); },
        };
        Ok(PoWInput { data, difficulty, start_nonce, max_attempts })
    }
}

impl PoWOutput {
    /// Writes the answer as a solution payload.
    pub fn encode(&self) -> (r: Vec<u8>)
        ensures
            r@ == output_bytes(self.nonce),
            output_parse(r@) == Ok::<u64, WireError>(self.nonce),
    {
        let mut out: Vec<u8> = Vec::new();
        put_u64(&mut out, self.nonce);
        proof {
            assert(out@ =~= output_bytes(self.nonce));
            lemma_output_round_trip(self.nonce);
        }
        out
    }

    /// Reads an answer from the start of a solution payload.
    pub fn decode(payload: &[u8]) -> (r: Result<PoWOutput, WireError>)
        ensures
            match output_parse(payload@) {
                Ok(nonce) => r == Ok::<PoWOutput, WireError>(PoWOutput { nonce }),
                Err(e) => r == Err::<PoWOutput, WireError>(e),
            },
    {
        assert(payload@.skip(0) =~= payload@);
        match take_u64(payload, 0) {
            Ok((nonce, _)) => Ok(PoWOutput { nonce }),
            Err(e) => Err(e),
        }
    }
}

/// The digest that `nonce` gives `data`, in lowercase hexadecimal.
pub fn digest_hex(data: &str, nonce: u64) -> (r: String)
    ensures
        r@ == digest_text(data@, nonce),
        r@.len() == 64,
{
    let mut bytes = slice_to_vec(data.as_bytes());
    let mut tail = u64_to_le_bytes(nonce);
    bytes.append(&mut tail);
    sha256_hex(bytes.as_slice())
}

/// The predicate of the challenge, for one nonce. Both the search and the
/// review decide by it.
pub fn verify_nonce(input: &PoWInput, nonce: u64) -> (r: bool)
    ensures
        r == nonce_accepted(input@, nonce),
        input.difficulty > 64 ==> !r,
{
    let text = digest_hex(input.data.as_str(), nonce);
    starts_with_zeros(text.as_str(), input.difficulty)
}

/// `find_any` of rayon on the nonces from `from` up to, not including,
/// `to`, with `verify_nonce` as the predicate. Which of several accepted
/// nonces comes back depends on how the work was scheduled. Claimed of it,
/// whichever run: a nonce that comes back lies in the range and is
/// accepted; none comes back only when the range holds no accepted nonce.
#[verifier::external_body]
fn find_any_accepted(input: &PoWInput, from: u64, to: u64) -> (r: Option<u64>)
    ensures
        match r {
            Some(nonce) => from <= nonce < to && nonce_accepted(input@, nonce),
            None => forall|nonce: u64|
                from <= nonce < to ==> !#[trigger] nonce_accepted(input@, nonce),
        },
{
    (from..to).into_par_iter().find_any(|&nonce| verify_nonce(input, nonce))
}

/// Searches the budget of `input` for an accepted nonce, in parallel. Which
/// one is found, where several are accepted, is left open.
pub fn search(input: &PoWInput) -> (r: Option<u64>)
    ensures
        match r {
            Some(nonce) => within_budget(input@, nonce) && nonce_accepted(input@, nonce),
            None => forall|nonce: u64|
                within_budget(input@, nonce) ==> !#[trigger] nonce_accepted(input@, nonce),
        },
{
    match input.start_nonce.checked_add(input.max_attempts) {
        Some(end) => find_any_accepted(input, input.start_nonce, end),
        None => match find_any_accepted(input, input.start_nonce, u64::MAX) {
            Some(nonce) => Some(nonce),
            None => if verify_nonce(input, u64::MAX) {
                Some(u64::MAX)
            } else {
                None
            },
        },
    }
}

/// The detail of the failure to find a nonce.
pub open spec fn not_found_detail() -> Seq<char> {
    "Nonce no encontrado dentro del rango especificado."@
}

/// The detail of the rejection of a wrong nonce.
pub open spec fn wrong_nonce_detail() -> Seq<char> {
    "La solución proporcionada es incorrecta."@
}

/// The detail of the failure to read a challenge payload under review.
pub open spec fn unreadable_challenge_detail(e: WireError) -> Seq<char> {
    "No se pudo decodificar el payload del desafío: "@ + e.reason_text()
}

/// The detail of the failure to read a solution payload under review.
pub open spec fn unreadable_solution_detail(e: WireError) -> Seq<char> {
    "No se pudo decodificar el payload de la solución: "@ + e.reason_text()
}

/// What a finished search amounts to: the found nonce as a solution, or the
/// failure to find one.
pub fn conclude_search(found: Option<u64>) -> (r: Result<Solution, SolverError>)
    ensures
        match found {
            Some(nonce) => r matches Ok(s) && s@ == output_bytes(nonce),
            None => r matches Err(SolverError::ComputationFailed(detail)) && detail@
                == not_found_detail(),
        },
{
    match found {
        Some(nonce) => Ok(Solution { payload: PoWOutput { nonce }.encode() }),
        None => Err(
            SolverError::ComputationFailed(
                String::from_str("Nonce no encontrado dentro del rango especificado."),
            ),
        ),
    }
}

/// The solver for proof-of-work challenges.
pub struct ProofOfWorkSolver;

impl ProofOfWorkSolver {
    /// The search problem posed at a difficulty.
    pub open spec fn problem(difficulty: u32) -> PoWInputView {
        PoWInputView {
            data: "reto-pow-"@ + decimal(difficulty as nat),
            difficulty,
            start_nonce: 0,
            max_attempts: SEARCH_BUDGET,
        }
    }
}

/// With difficulty zero every nonce is accepted.
pub proof fn lemma_zero_difficulty_accepts(input: PoWInputView, nonce: u64)
    requires
        input.difficulty == 0,
    ensures
        nonce_accepted(input, nonce),
{
}

/// An accepted nonce gives a digest with at least `difficulty` leading
/// zeros, and a nonce that gives such a digest is accepted.
pub proof fn lemma_accepted_means_leading_zeros(input: PoWInputView, nonce: u64)
    ensures
        nonce_accepted(input, nonce) <==> {
            let text = hex_lower(sha256(encode_utf8(input.data) + spec_u64_to_le_bytes(nonce)));
            &&& input.difficulty <= text.len()
            &&& forall|i: int| 0 <= i < input.difficulty ==> text[i] == '0'
        },
{
}

/// The challenge posed at any difficulty is readable, and reads as the
/// problem it was made from.
pub proof fn lemma_posed_is_readable(difficulty: u32)
    ensures
        input_parse(ProofOfWorkSolver.posed(difficulty).payload) == Ok::<
            PoWInputView,
            WireError,
        >(ProofOfWorkSolver::problem(difficulty)),
        ProofOfWorkSolver.reads_challenge(ProofOfWorkSolver.posed(difficulty).payload),
        ProofOfWorkSolver::problem(difficulty).well_formed(),
{
    let label = "reto-pow-"@;
    let number = decimal(difficulty as nat);
    let data = label + number;
    reveal_strlit("reto-pow-");
    lemma_decimal_is_short_ascii(difficulty as nat);
    assert(is_ascii_chars(data));
    is_ascii_chars_encode_utf8(data);
    lemma_input_round_trip(ProofOfWorkSolver::problem(difficulty));
}

/// Solving and reviewing agree: a nonce that the predicate accepts for a
/// readable challenge, written as a solution, passes the review of that
/// challenge. What `solve` returns is such a solution.
pub proof fn lemma_accepted_nonce_passes_review(challenge: Seq<u8>, nonce: u64)
    requires
        input_parse(challenge) is Ok,
        nonce_accepted(input_parse(challenge)->Ok_0, nonce),
    ensures
        ProofOfWorkSolver.reads_challenge(challenge),
        ProofOfWorkSolver.reads_solution(output_bytes(nonce)),
        ProofOfWorkSolver.accepts(challenge, output_bytes(nonce)),
{
    lemma_output_round_trip(nonce);
}

/// For every difficulty: whatever solves the posed challenge passes its
/// review.
pub proof fn lemma_posed_solved_reviewed(difficulty: u32, nonce: u64)
    requires
        nonce_accepted(ProofOfWorkSolver::problem(difficulty), nonce),
    ensures
        ProofOfWorkSolver.reads_challenge(ProofOfWorkSolver.posed(difficulty).payload),
        ProofOfWorkSolver.reads_solution(output_bytes(nonce)),
        ProofOfWorkSolver.accepts(
            ProofOfWorkSolver.posed(difficulty).payload,
            output_bytes(nonce),
        ),
        ProofOfWorkSolver.verdict(
            ProofOfWorkSolver.posed(difficulty).payload,
            output_bytes(nonce),
        ) is Ok,
{
    lemma_posed_is_readable(difficulty);
    lemma_accepted_nonce_passes_review(ProofOfWorkSolver.posed(difficulty).payload, nonce);
}

impl Solver for ProofOfWorkSolver {
    open spec fn reads_challenge(&self, payload: Seq<u8>) -> bool {
        input_parse(payload) is Ok
    }

    open spec fn reads_solution(&self, payload: Seq<u8>) -> bool {
        output_parse(payload) is Ok
    }

    open spec fn accepts(&self, challenge: Seq<u8>, solution: Seq<u8>) -> bool {
        nonce_accepted(input_parse(challenge)->Ok_0, output_parse(solution)->Ok_0)
    }

    open spec fn solvable(&self, challenge: Seq<u8>) -> bool {
        exists|nonce: u64|
            within_budget(input_parse(challenge)->Ok_0, nonce) && #[trigger] nonce_accepted(
                input_parse(challenge)->Ok_0,
                nonce,
            )
    }

    open spec fn posed(&self, difficulty: u32) -> ChallengeView {
        ChallengeView { name: "pow"@, payload: input_bytes(Self::problem(difficulty)) }
    }

    open spec fn answers(&self, challenge: Seq<u8>, solution: Seq<u8>) -> bool {
        exists|nonce: u64|
            solution == output_bytes(nonce) && within_budget(input_parse(challenge)->Ok_0, nonce)
                && #[trigger] nonce_accepted(input_parse(challenge)->Ok_0, nonce)
    }

    open spec fn verdict(&self, challenge: Seq<u8>, solution: Seq<u8>) -> Result<
        (),
        SolverErrorView,
    > {
        match (input_parse(challenge), output_parse(solution)) {
            (Err(e), _) => Err(SolverErrorView::InvalidInput(unreadable_challenge_detail(e))),
            (Ok(_), Err(e)) => Err(SolverErrorView::InvalidInput(unreadable_solution_detail(e))),
            (Ok(input), Ok(nonce)) => if nonce_accepted(input, nonce) {
                Ok(())
            } else {
                Err(SolverErrorView::ComputationFailed(wrong_nonce_detail()))
            },
        }
    }

    proof fn lemma_verdict(&self, challenge: Seq<u8>, solution: Seq<u8>) {
    }

    proof fn lemma_answer_passes_review(&self, challenge: Seq<u8>, solution: Seq<u8>) {
        let nonce = choose|nonce: u64|
            solution == output_bytes(nonce) && within_budget(input_parse(challenge)->Ok_0, nonce)
                && #[trigger] nonce_accepted(input_parse(challenge)->Ok_0, nonce);
        lemma_output_round_trip(nonce);
    }

    /// Reads the search problem and searches its budget. The solution holds
    /// a nonce of the budget that the predicate accepts.
    fn solve(&self, payload: &[u8]) -> (r: Result<Solution, SolverError>)
        ensures
            match input_parse(payload@) {
                Err(e) => r matches Err(SolverError::InvalidInput(detail)) && detail@
                    == e.reason_text(),
                Ok(_) => r matches Err(failure) ==> failure matches SolverError::ComputationFailed(
                    detail,
                ) && detail@ == not_found_detail(),
            },
    {
        let input = match PoWInput::decode(payload) {
            Ok(input) => input,
            Err(e) => {
                return Err(SolverError::InvalidInput(String::from_str(e.reason())));
            },
        };
        let found = search(&input);
        proof {
            if let Some(nonce) = found {
                lemma_output_round_trip(nonce);
            }
        }
        conclude_search(found)
    }

    /// Poses the search problem of the difficulty under the name `pow`.
    fn create_challenge(&self, difficulty: u32) -> (r: Result<Challenge, SolverError>) {
        let input = PoWInput {
            data: String::from_str("reto-pow-").concat(decimal_string(difficulty).as_str()),
            difficulty,
            start_nonce: 0,
            max_attempts: SEARCH_BUDGET,
        };
        Ok(Challenge { name: String::from_str("pow"), payload: input.encode() })
    }

    /// Reads both payloads and applies the predicate to the nonce.
    fn review_solution(&self, challenge_payload: &[u8], solution: &Solution) -> (r: Result<
        (),
        SolverError,
    >) {
        let input = match PoWInput::decode(challenge_payload) {
            Ok(input) => input,
            Err(e) => {
                return Err(
                    SolverError::InvalidInput(
                        String::from_str(
                            "No se pudo decodificar el payload del desafío: ",
                        ).concat(e.reason()),
                    ),
                );
            },
        };
        let output = match PoWOutput::decode(solution.payload.as_slice()) {
            Ok(output) => output,
            Err(e) => {
                return Err(
                    SolverError::InvalidInput(
                        String::from_str(
                            "No se pudo decodificar el payload de la solución: ",
                        ).concat(e.reason()),
                    ),
                );
            },
        };
        if verify_nonce(&input, output.nonce) {
            Ok(())
        } else {
            Err(
                SolverError::ComputationFailed(
                    String::from_str("La solución proporcionada es incorrecta."),
                ),
            )
        }
    }
}

} // verus!
