use aleo_prover::prover::{Prover, WorkerAction};
use aleo_prover::puzzle::{
    commitment_hash, difficulty_of_hash, prove, Challenge, Puzzle, Solution, MAX_KEY_DEGREE,
    PUZZLE_DEGREE,
};
use snarkvm::prelude::{
    CoinbasePuzzle, EpochChallenge, FromBytes, ProverSolution, PuzzleConfig, Testnet3, ToBytes,
    UniversalSRS,
};

const ADDRESS: &str = "aleo1wvgwnqvy46qq0zemj0k6sfp3zv0mp77rw97khvwuhac05yuwscxqmfyhwf";

fn challenge(epoch_number: u32, degree: u32) -> Challenge {
    Challenge { epoch_number, block_hash: vec![0; 32], degree }
}

fn decode(solution: &Solution) -> ProverSolution<Testnet3> {
    ProverSolution::from_bytes_le(&solution.encoded).unwrap()
}

#[test]
fn commitment_hash_is_sha256d() {
    assert_eq!(commitment_hash(&vec![]), 0xd359_1376_e2e0_f65d);
    assert_eq!(commitment_hash(&b"hello".to_vec()), 0x4851_0790_dfc9_9595);
    assert_eq!(commitment_hash(&vec![1, 2, 3]), 0xd0b9_4021_7e19_c619);
}

#[test]
fn difficulty_divides_the_largest_hash() {
    assert_eq!(difficulty_of_hash(1), u64::MAX);
    assert_eq!(difficulty_of_hash(2), u64::MAX / 2);
    assert_eq!(difficulty_of_hash(u64::MAX), 1);
    assert_eq!(difficulty_of_hash(0x4851_0790_dfc9_9595), 3);
}

#[test]
fn difficulty_falls_with_hash() {
    assert!(difficulty_of_hash(1000) >= difficulty_of_hash(1001));
    assert!(difficulty_of_hash(7) > difficulty_of_hash(700));
}

#[test]
fn difficulty_meets_target() {
    let target = 1_000_000;
    let limit = u64::MAX / target;
    assert!(difficulty_of_hash(limit) >= target);
    assert!(difficulty_of_hash(limit + 1) < target);
}

#[test]
fn puzzle_degree() {
    assert_eq!(PUZZLE_DEGREE, (1 << 13) - 1);
    assert!(PUZZLE_DEGREE <= MAX_KEY_DEGREE);
}

#[test]
fn solutions_are_what_was_asked_for() {
    let puzzle = Puzzle::trimmed(127);
    let solution = prove(&puzzle, &challenge(3, 127), ADDRESS, 77, 0).unwrap();
    assert_eq!((solution.address.as_str(), solution.nonce), (ADDRESS, 77));
    let decoded = decode(&solution);
    assert_eq!((decoded.address().to_string().as_str(), decoded.nonce()), (ADDRESS, 77));
    assert_eq!(decoded.commitment().to_bytes_le().unwrap(), solution.commitment);
    assert_eq!(prove(&puzzle, &challenge(3, 127), ADDRESS, 77, 0).as_ref(), Some(&solution));

    let difficulty = decoded.to_target().unwrap();
    assert_eq!(difficulty_of_hash(commitment_hash(&solution.commitment)), difficulty);
    assert!(prove(&puzzle, &challenge(3, 127), ADDRESS, 77, difficulty).is_some());
    assert!(prove(&puzzle, &challenge(3, 127), ADDRESS, 77, difficulty + 1).is_none());

    let other = prove(&puzzle, &challenge(3, 127), ADDRESS, 78, 0).unwrap();
    let later = prove(&puzzle, &challenge(4, 127), ADDRESS, 77, 0).unwrap();
    assert_ne!(other.commitment, solution.commitment);
    assert_ne!(later.commitment, solution.commitment);
}

#[test]
fn challenges_that_fit_the_key() {
    let puzzle = Puzzle::trimmed(100);
    for degree in [0, 1, 63, 128, 8191, u32::MAX] {
        assert_eq!(prove(&puzzle, &challenge(3, degree), ADDRESS, 77, 0), None);
    }
    for degree in [64, 100, 127] {
        assert!(prove(&puzzle, &challenge(3, degree), ADDRESS, 77, 0).is_some());
    }
}

#[test]
fn small_keys() {
    for degree in [1, 2, 3, 5] {
        let puzzle = Puzzle::trimmed(degree);
        assert!(prove(&puzzle, &challenge(3, degree), ADDRESS, 77, 0).is_some());
    }
}

#[test]
fn nothing_is_proved_of_what_cannot_be_read() {
    let puzzle = Puzzle::trimmed(63);
    assert!(prove(&puzzle, &challenge(3, 63), ADDRESS, 77, 0).is_some());
    assert_eq!(prove(&puzzle, &challenge(3, 63), "aleo1", 77, 0), None);
    let unreadable = Challenge { epoch_number: 3, block_hash: vec![0; 31], degree: 63 };
    assert_eq!(prove(&puzzle, &unreadable, ADDRESS, 77, 0), None);
}

#[test]
fn solutions_verify() {
    let solution = prove(&Puzzle::trimmed(63), &challenge(3, 63), ADDRESS, 77, 0).unwrap();
    let srs = UniversalSRS::<Testnet3>::load().unwrap();
    let key = CoinbasePuzzle::<Testnet3>::trim(&srs, PuzzleConfig { degree: 63 }).unwrap();
    let hash = FromBytes::from_bytes_le(&[0; 32]).unwrap();
    let right = EpochChallenge::new(3, hash, 63).unwrap();
    let wrong = EpochChallenge::new(4, hash, 63).unwrap();
    let decoded = decode(&solution);
    assert!(decoded.verify(key.coinbase_verifying_key(), &right, 0).unwrap());
    assert!(!decoded.verify(key.coinbase_verifying_key(), &wrong, 0).unwrap());
}

#[test]
fn submission_meets_target() {
    let puzzle = Puzzle::trimmed(63);
    let mut prover = Prover::init(4, 4, None, None);
    prover.new_target(2);
    let order = prover.new_work(3, challenge(3, 63), ADDRESS.to_string()).unwrap();
    let mut submitted = 0;
    let mut failed = 0;
    for nonce in 0..16 {
        let attempt = prover.attempt_at(3, nonce).unwrap();
        let solution = order.make_attempt(&puzzle, attempt);
        assert_eq!(solution, prove(&puzzle, &challenge(3, 63), ADDRESS, nonce, 2));
        match prover.try_finish_attempt(3, solution).unwrap() {
            WorkerAction::Submit(solution, difficulty) => {
                assert!(difficulty >= 2);
                assert_eq!((solution.address.as_str(), solution.nonce), (ADDRESS, nonce));
                submitted += 1;
            }
            WorkerAction::Retry => failed += 1,
            WorkerAction::Stop => panic!("stale"),
        }
    }
    assert!(submitted > 0 && failed > 0);
    assert_eq!(prover.total_proofs, 16);
}
