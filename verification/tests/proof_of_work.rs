use core_challenges::solvers::proof_of_work::{PoWInput, PoWOutput};
use core_challenges::solvers::ProofOfWorkSolver;
use core_challenges::{Solution, Solver};

#[test]
fn test_solve_finds_valid_solution() {
    let solver = ProofOfWorkSolver;
    let challenge = solver.create_challenge(4).unwrap();
    let solution = solver.solve(&challenge.payload).unwrap();

    let review = solver.review_solution(&challenge.payload, &solution);
    assert!(review.is_ok());
}

#[test]
fn test_solve_returns_error_if_not_in_range() {
    let solver = ProofOfWorkSolver;
    let impossible_input = PoWInput {
        data: "Test de rango".to_string(),
        difficulty: 5,
        start_nonce: 0,
        max_attempts: 10,
    };
    let payload = impossible_input.encode();
    let result = solver.solve(&payload);
    assert!(result.is_err());
}

#[test]
fn test_review_rejects_invalid_solution() {
    let solver = ProofOfWorkSolver;
    let challenge = solver.create_challenge(3).unwrap();
    let fake_output = PoWOutput { nonce: 12345 };
    let fake_payload = fake_output.encode();
    let fake_solution = Solution { payload: fake_payload };
    let review_result = solver.review_solution(&challenge.payload, &fake_solution);
    assert!(review_result.is_err());
}

use core_challenges::solvers::proof_of_work::{
    conclude_search, digest_hex, search, verify_nonce, SEARCH_BUDGET,
};
use core_challenges::wire::WireError;
use core_challenges::SolverError;

fn problem(data: &str, difficulty: u32, start_nonce: u64, max_attempts: u64) -> PoWInput {
    PoWInput { data: data.to_string(), difficulty, start_nonce, max_attempts }
}

#[test]
fn solved_challenges_pass_review_at_every_low_difficulty() {
    let solver = ProofOfWorkSolver;
    for difficulty in 0..=5 {
        let challenge = solver.create_challenge(difficulty).unwrap();
        let solution = solver.solve(&challenge.payload).unwrap();
        assert!(solver.review_solution(&challenge.payload, &solution).is_ok());
    }
}

#[test]
fn solved_problems_pass_review_for_other_data() {
    let solver = ProofOfWorkSolver;
    for (i, data) in ["", "a", "Test de rango", "datos ñandú", "0000"].iter().enumerate() {
        for difficulty in 0..=3 {
            let payload = problem(data, difficulty, i as u64 * 1000, 10_000_000).encode();
            let solution = solver.solve(&payload).unwrap();
            assert!(solver.review_solution(&payload, &solution).is_ok());
        }
    }
}

#[test]
fn a_found_nonce_lies_in_the_budget_and_gives_leading_zeros() {
    let input = problem("reto", 3, 5_000, 1_000_000);
    let nonce = search(&input).unwrap();
    assert!(nonce >= 5_000 && nonce < 1_005_000);
    assert!(verify_nonce(&input, nonce));
    assert!(digest_hex("reto", nonce).starts_with("000"));
    let payload = ProofOfWorkSolver.solve(&input.encode()).unwrap().payload;
    let found = PoWOutput::decode(&payload).unwrap().nonce;
    assert!(found >= 5_000 && found < 1_005_000);
    assert!(digest_hex("reto", found).starts_with("000"));
}

#[test]
fn verify_counts_leading_zeros_of_the_digest() {
    let input = problem("reto-pow-2", 2, 0, 100_000);
    let mut accepted = 0;
    for nonce in 0..2_000u64 {
        let expected = digest_hex("reto-pow-2", nonce).starts_with("00");
        assert_eq!(verify_nonce(&input, nonce), expected);
        if expected {
            accepted += 1;
        }
    }
    assert!(accepted > 0);
}

#[test]
fn difficulty_zero_accepts_every_nonce() {
    let input = problem("cualquier cosa", 0, 0, 1);
    for nonce in [0u64, 1, 12345, u64::MAX] {
        assert!(verify_nonce(&input, nonce));
    }
    let solution = ProofOfWorkSolver.solve(&input.encode()).unwrap();
    assert_eq!(PoWOutput::decode(&solution.payload), Ok(PoWOutput { nonce: 0 }));
}

#[test]
fn a_difficulty_beyond_the_digest_accepts_nothing() {
    for difficulty in [65u32, 100, u32::MAX] {
        let input = problem("x", difficulty, 0, 50);
        for nonce in 0..50u64 {
            assert!(!verify_nonce(&input, nonce));
        }
        assert_eq!(search(&input), None);
    }
}

#[test]
fn an_exhausted_budget_is_a_failed_computation() {
    let payload = problem("Test de rango", 5, 0, 10).encode();
    assert!(matches!(
        ProofOfWorkSolver.solve(&payload),
        Err(SolverError::ComputationFailed(_))
    ));
}

#[test]
fn an_empty_budget_is_a_failed_computation() {
    let input = problem("x", 0, 7, 0);
    assert_eq!(search(&input), None);
    assert!(matches!(
        ProofOfWorkSolver.solve(&input.encode()),
        Err(SolverError::ComputationFailed(_))
    ));
}

#[test]
fn a_budget_that_reaches_past_the_last_nonce_is_searched_to_the_end() {
    let input = problem("fin", 0, u64::MAX - 3, 10);
    let nonce = search(&input).unwrap();
    assert!(nonce >= u64::MAX - 3);
    let only_last = problem("fin", 0, u64::MAX, u64::MAX);
    assert_eq!(search(&only_last), Some(u64::MAX));
    let nothing = problem("fin", 70, u64::MAX - 3, 10);
    assert_eq!(search(&nothing), None);
}

#[test]
fn an_unreadable_challenge_is_invalid_input() {
    let solver = ProofOfWorkSolver;
    for payload in [&[][..], &[5, 1, 2][..], &[1, 0xff, 0, 0, 1][..], &[1, b'a', 253][..]] {
        assert!(matches!(solver.solve(payload), Err(SolverError::InvalidInput(_))));
        let solution = Solution { payload: vec![0] };
        assert!(matches!(
            solver.review_solution(payload, &solution),
            Err(SolverError::InvalidInput(_))
        ));
    }
}

#[test]
fn an_unreadable_solution_is_invalid_input() {
    let solver = ProofOfWorkSolver;
    let challenge = solver.create_challenge(0).unwrap();
    for payload in [vec![], vec![251, 1], vec![254, 0, 0]] {
        let solution = Solution { payload };
        assert!(matches!(
            solver.review_solution(&challenge.payload, &solution),
            Err(SolverError::InvalidInput(_))
        ));
    }
}

#[test]
fn a_wrong_nonce_is_a_failed_computation() {
    let solver = ProofOfWorkSolver;
    let challenge = solver.create_challenge(3).unwrap();
    let solution = Solution { payload: PoWOutput { nonce: 12345 }.encode() };
    assert!(matches!(
        solver.review_solution(&challenge.payload, &solution),
        Err(SolverError::ComputationFailed(_))
    ));
}

#[test]
fn review_does_not_ask_for_the_budget() {
    let solver = ProofOfWorkSolver;
    let inside = problem("reto", 2, 0, 1_000_000);
    let nonce = search(&inside).unwrap();
    let outside = problem("reto", 2, nonce + 1, 1);
    let solution = Solution { payload: PoWOutput { nonce }.encode() };
    assert!(solver.review_solution(&outside.encode(), &solution).is_ok());
}

#[test]
fn the_posed_challenge_is_fixed_by_the_difficulty() {
    let solver = ProofOfWorkSolver;
    let challenge = solver.create_challenge(4).unwrap();
    assert_eq!(challenge.name, "pow");
    assert_eq!(
        PoWInput::decode(&challenge.payload),
        Ok(problem("reto-pow-4", 4, 0, 500_000_000))
    );
    assert_eq!(SEARCH_BUDGET, 500_000_000);
    assert_eq!(solver.create_challenge(4).unwrap(), challenge);
    let other = solver.create_challenge(4_000_000_000).unwrap();
    assert_eq!(
        PoWInput::decode(&other.payload),
        Ok(problem("reto-pow-4000000000", 4_000_000_000, 0, 500_000_000))
    );
    let zero = solver.create_challenge(0).unwrap();
    assert_eq!(
        zero.payload,
        vec![10, b'r', b'e', b't', b'o', b'-', b'p', b'o', b'w', b'-', b'0', 0, 0, 252, 0, 101, 205, 29]
    );
}

#[test]
fn payloads_match_the_encoder_of_record() {
    let config = bincode::config::standard();
    let input = problem("reto-pow-4", 4, 0, 500_000_000);
    assert_eq!(
        input.encode(),
        bincode::encode_to_vec(("reto-pow-4", 4u32, 0u64, 500_000_000u64), config).unwrap()
    );
    let input = problem("ñ", u32::MAX, u64::MAX, 70_000);
    assert_eq!(
        input.encode(),
        bincode::encode_to_vec(("ñ", u32::MAX, u64::MAX, 70_000u64), config).unwrap()
    );
    for nonce in [0u64, 250, 251, 12345, 125_000_000, u64::MAX] {
        assert_eq!(
            PoWOutput { nonce }.encode(),
            bincode::encode_to_vec(nonce, config).unwrap()
        );
    }
}

#[test]
fn payloads_survive_the_round_trip() {
    for input in [
        problem("", 0, 0, 0),
        problem("reto-pow-4", 4, 0, 500_000_000),
        problem("ñandú", 300, 70_000, u64::MAX),
    ] {
        assert_eq!(PoWInput::decode(&input.encode()), Ok(input));
    }
    for nonce in [0u64, 250, 251, 65_535, 65_536, u32::MAX as u64 + 1, u64::MAX] {
        let output = PoWOutput { nonce };
        assert_eq!(PoWOutput::decode(&output.encode()), Ok(output));
    }
    assert_eq!(PoWOutput { nonce: 12345 }.encode(), vec![251, 57, 48]);
}

#[test]
fn broken_payloads_are_refused() {
    assert_eq!(PoWInput::decode(&[]), Err(WireError::BadInteger));
    assert_eq!(PoWInput::decode(&[4, b'a']), Err(WireError::LengthOverrun));
    assert_eq!(PoWInput::decode(&[1, 0xff, 1, 2, 3]), Err(WireError::BadText));
    assert_eq!(PoWInput::decode(&[1, b'a', 1, 2]), Err(WireError::BadInteger));
    assert_eq!(PoWInput::decode(&[1, b'a', 253, 0, 0, 0, 0, 0, 0, 0, 0, 2, 3]), Err(WireError::BadInteger));
    assert_eq!(PoWOutput::decode(&[]), Err(WireError::BadInteger));
    assert_eq!(PoWOutput::decode(&[253, 1]), Err(WireError::BadInteger));
}

#[test]
fn a_finished_search_becomes_a_solution_or_a_failure() {
    assert_eq!(conclude_search(Some(12345)), Ok(Solution { payload: vec![251, 57, 48] }));
    assert_eq!(conclude_search(Some(0)), Ok(Solution { payload: vec![0] }));
    assert!(matches!(conclude_search(None), Err(SolverError::ComputationFailed(_))));
}

#[test]
fn errors_read_as_kind_and_detail() {
    assert_eq!(SolverError::InvalidInput("x".to_string()).to_text(), "Invalid Input: x");
    assert_eq!(
        SolverError::ComputationFailed("y z".to_string()).to_text(),
        "Computation Failed: y z"
    );
    assert_eq!(SolverError::InvalidInput(String::new()).to_text(), "Invalid Input: ");
}
