//! The coinbase puzzle: how it is solved, and what its solutions are worth.

use vstd::arithmetic::power2::*;
use vstd::prelude::*;

use snarkvm::prelude::{
    CoinbasePuzzle, EpochChallenge, FromBytes, PuzzleConfig, Testnet3, ToBytes, UniversalSRS,
};

verus! {

/// The degree of the coinbase puzzle's polynomials.
pub const PUZZLE_DEGREE: u32 = 8191;

/// The largest degree whose proving key is made of nothing but what comes with `snarkvm`.
pub const MAX_KEY_DEGREE: u32 = 16383;

/// What `sha256d_to_u64` of `snarkvm_algorithms` makes of `data`: the first eight bytes,
/// little-endian, of the SHA-256 of its SHA-256.
pub uninterp spec fn sha256d(data: Seq<u8>) -> u64;

/// What `CoinbasePuzzle::prove` makes, with the network's proving key for `key_degree`, of the
/// challenge of an epoch, the address in `address`, a nonce and a minimum proof target: the encoded
/// commitment of a solution and the solution itself, encoded, if there is one.
pub uninterp spec fn proved(
    key_degree: u32,
    epoch_number: u32,
    block_hash: Seq<u8>,
    degree: u32,
    address: Seq<char>,
    nonce: u64,
    proof_target: u64,
) -> Option<(Seq<u8>, Seq<u8>)>;

/// A proving key as `snarkvm` holds it.
#[verifier::external_body]
pub struct ProvingKey {
    inner: CoinbasePuzzle<Testnet3>,
}

/// The coinbase puzzle: the network's proving key for a degree. There is one key for each degree.
pub struct Puzzle {
    key: ProvingKey,
    degree: u32,
}

/// The challenge of an epoch.
pub struct Challenge {
    /// The number of the epoch.
    pub epoch_number: u32,
    /// The encoded hash of the block right before the epoch.
    pub block_hash: Vec<u8>,
    /// The degree of the epoch's polynomial.
    pub degree: u32,
}

/// A solution of the coinbase puzzle.
#[derive(Debug, PartialEq, Eq)]
pub struct Solution {
    /// The address that the solution is for.
    pub address: String,
    /// The nonce that solves the puzzle.
    pub nonce: u64,
    /// The encoded commitment of the solution.
    pub commitment: Vec<u8>,
    /// The whole solution, encoded.
    pub encoded: Vec<u8>,
}

/// The number of binary digits of `n`.
pub open spec fn bit_length(n: nat) -> nat
    decreases n,
{
    if n == 0 {
        0
    } else {
        1 + bit_length(n / 2)
    }
}

/// Whether the proving key for `key_degree` works on challenges of this degree. It does on those
/// with as many binary digits: the products of two polynomials of either degree then need as much
/// room, rounded up to a power of two.
pub open spec fn fits_key(key_degree: u32, degree: u32) -> bool {
    degree > 0 && bit_length(degree as nat) == bit_length(key_degree as nat)
}

/// Whether a solution with this encoded commitment has difficulty `proof_target` or more. A
/// commitment that hashes to zero has any difficulty.
pub open spec fn meets(commitment: Seq<u8>, proof_target: u64) -> bool {
    sha256d(commitment) == 0 || u64::MAX / sha256d(commitment) >= proof_target
}

/// The encoded commitment and the encoding of a solution.
pub open spec fn encodings(solution: Option<Solution>) -> Option<(Seq<u8>, Seq<u8>)> {
    match solution {
        Some(solution) => Some((solution.commitment@, solution.encoded@)),
        None => None,
    }
}

/// What an attempt at `challenge` for the address in `address` brings with the proving key for
/// `key_degree`. There is nothing to be had from a challenge that does not fit the key.
pub open spec fn solution_of(
    key_degree: u32,
    challenge: Challenge,
    address: Seq<char>,
    nonce: u64,
    proof_target: u64,
) -> Option<(Seq<u8>, Seq<u8>)> {
    if fits_key(key_degree, challenge.degree) {
        proved(
            key_degree,
            challenge.epoch_number,
            challenge.block_hash@,
            challenge.degree,
            address,
            nonce,
            proof_target,
        )
    } else {
        None
    }
}

/// Whether `solution` is for the address in `address` and this nonce and meets the target.
pub open spec fn answers(
    solution: Solution,
    address: Seq<char>,
    nonce: u64,
    proof_target: u64,
) -> bool {
    &&& Some(solution.address@) == crate::account::parsed_address(address)
    &&& solution.nonce == nonce
    &&& meets(solution.commitment@, proof_target)
}

/// `CoinbasePuzzle::trim` on `UniversalSRS::load`: the puzzle holds the proving key for `degree`. Up
/// to [`MAX_KEY_DEGREE`] all that is read comes with the crate, so there always is a key, and it is
/// always the same.
#[verifier::external_body]
fn trim(degree: u32) -> (puzzle: Puzzle)
    requires
        0 < degree <= MAX_KEY_DEGREE,
    ensures
        puzzle.spec_degree() == degree,
{
    let srs = UniversalSRS::<Testnet3>::load().expect("Failed to load SRS");
    let inner = CoinbasePuzzle::trim(&srs, PuzzleConfig { degree });
    let inner = inner.expect("Failed to load coinbase proving key");
    Puzzle { key: ProvingKey { inner }, degree }
}

/// `CoinbasePuzzle::prove` on the challenge that `EpochChallenge::new` makes of these values: a
/// function of the values and of the degree of the key. A solution is for the address and the nonce
/// that were given and has at least the difficulty that was asked for. Where a text or an encoding
/// cannot be read there is no solution.
#[verifier::external_body]
fn prove_challenge(
    puzzle: &Puzzle,
    challenge: &Challenge,
    address: &str,
    nonce: u64,
    proof_target: u64,
) -> (solution: Option<Solution>)
    requires
        fits_key(puzzle.spec_degree(), challenge.degree),
    ensures
        encodings(solution) == proved(
            puzzle.spec_degree(),
            challenge.epoch_number,
            challenge.block_hash@,
            challenge.degree,
            address@,
            nonce,
            proof_target,
        ),
        solution matches Some(solution) ==> answers(solution, address@, nonce, proof_target),
{
    let hash = FromBytes::from_bytes_le(&challenge.block_hash).ok()?;
    let challenge = EpochChallenge::new(challenge.epoch_number, hash, challenge.degree).ok()?;
    let address = address.parse().ok()?;
    let solution = puzzle.key.inner.prove(&challenge, address, nonce, Some(proof_target)).ok()?;
    Some(Solution {
        address: solution.address().to_string(),
        nonce: solution.nonce(),
        commitment: solution.commitment().to_bytes_le().ok()?,
        encoded: solution.to_bytes_le().ok()?,
    })
}

/// The number of binary digits of `n`.
fn count_bits(n: u32) -> (bits: u32)
    ensures
        bits as nat == bit_length(n as nat),
        bits <= n,
    decreases n,
{
    if n == 0 {
        0
    } else {
        1 + count_bits(n / 2)
    }
}

impl Puzzle {
    /// The degree that the proving key is for.
    pub closed spec fn spec_degree(self) -> u32 {
        self.degree
    }

    /// The coinbase puzzle of the network.
    pub fn load() -> (puzzle: Puzzle)
        ensures
            puzzle.spec_degree() == PUZZLE_DEGREE,
    {
        Puzzle::trimmed(PUZZLE_DEGREE)
    }

    /// The coinbase puzzle of the network, trimmed to `degree`.
    pub fn trimmed(degree: u32) -> (puzzle: Puzzle)
        requires
            0 < degree <= MAX_KEY_DEGREE,
        ensures
            puzzle.spec_degree() == degree,
    {
        trim(degree)
    }
}

/// Makes one attempt to solve the puzzle.
pub fn prove(
    puzzle: &Puzzle,
    challenge: &Challenge,
    address: &str,
    nonce: u64,
    proof_target: u64,
) -> (solution: Option<Solution>)
    ensures
        encodings(solution) == solution_of(
            puzzle.spec_degree(),
            *challenge,
            address@,
            nonce,
            proof_target,
        ),
        solution matches Some(solution) ==> answers(solution, address@, nonce, proof_target),
        challenge.degree > 0 && bit_length(challenge.degree as nat) == bit_length(
            puzzle.spec_degree() as nat,
        ) ==> proved(
            puzzle.spec_degree(),
            challenge.epoch_number,
            challenge.block_hash@,
            challenge.degree,
            address@,
            nonce,
            proof_target,
        ) == match solution {
            Some(solution) => Some((solution.commitment@, solution.encoded@)),
            None => None,
        },
        challenge.degree == 0 || bit_length(challenge.degree as nat) != bit_length(
            puzzle.spec_degree() as nat,
        ) ==> solution is None,
        solution matches Some(solution) ==> solution.nonce == nonce && Some(solution.address@)
            == crate::account::parsed_address(address@),
        solution matches Some(solution) ==> sha256d(solution.commitment@) == 0 || u64::MAX / sha256d(
            solution.commitment@,
        ) >= proof_target,
{
    if challenge.degree == 0 || count_bits(challenge.degree) != count_bits(puzzle.degree) {
        return None;
    }
    prove_challenge(puzzle, challenge, address, nonce, proof_target)
}

/// `snarkvm_algorithms::crypto_hash::sha256d_to_u64`: a function of the hashed bytes alone.
#[verifier::external_body]
fn sha256d_to_u64(data: &[u8]) -> (hash: u64)
    ensures
        hash == sha256d(data@),
{
    snarkvm_algorithms::crypto_hash::sha256d_to_u64(data)
}

/// The hash of a commitment, on which its difficulty rests.
pub fn commitment_hash(commitment: &Vec<u8>) -> (hash: u64)
    ensures
        hash == sha256d(commitment@),
{
    sha256d_to_u64(commitment.as_slice())
}

/// The difficulty of a solution whose commitment has this hash.
pub fn difficulty_of_hash(hash: u64) -> (difficulty: u64)
    requires
        hash != 0,
    ensures
        difficulty == u64::MAX / hash,
        hash * difficulty <= u64::MAX < hash * (difficulty + 1),
{
    proof {
        let max = u64::MAX as int;
        let divisor = hash as int;
        let quotient = max / divisor;
        vstd::arithmetic::div_mod::lemma_fundamental_div_mod(max, divisor);
        assert(divisor * quotient <= max < divisor * (quotient + 1)) by (nonlinear_arith)
            requires
                max == divisor * quotient + max % divisor,
                0 <= max % divisor < divisor,
        ;
    }
    u64::MAX / hash
}

/// The network's proving key works on the challenges whose degree is at most [`PUZZLE_DEGREE`] and
/// more than half of it, and on no others.
pub proof fn law_network_key_fits(degree: u32)
    ensures
        fits_key(PUZZLE_DEGREE, degree) <==> PUZZLE_DEGREE / 2 < degree <= PUZZLE_DEGREE,
{
    reveal_with_fuel(bit_length, 15);
}

/// A number with `e + 1` binary digits is one from `2^e` on and below `2^(e + 1)`.
proof fn lemma_bit_length_octave(n: nat, e: nat)
    ensures
        bit_length(n) == e + 1 <==> pow2(e) <= n < pow2(e + 1),
    decreases e, n,
{
    lemma_pow2_pos(e);
    lemma_pow2_unfold(e + 1);
    reveal_with_fuel(bit_length, 2);
    if n > 0 {
        if e == 0 {
            lemma2_to64();
            if n > 1 {
                assert(bit_length(n / 2) > 0);
            }
        } else {
            lemma_pow2_unfold(e);
            lemma_bit_length_octave(n / 2, (e - 1) as nat);
        }
    }
}

/// A proving key works on the challenges whose degree lies between the same two neighbouring powers
/// of two as the degree of the key, and on no others.
pub proof fn law_key_fits_octave(key_degree: u32, degree: u32, e: nat)
    requires
        pow2(e) <= key_degree < pow2(e + 1),
    ensures
        fits_key(key_degree, degree) <==> pow2(e) <= degree < pow2(e + 1),
{
    lemma_bit_length_octave(key_degree as nat, e);
    lemma_bit_length_octave(degree as nat, e);
    lemma_pow2_pos(e);
}

/// On a challenge of the network's degree, with the network's key, an attempt brings whatever
/// `CoinbasePuzzle::prove` brings: every solution that is to be had, and none else.
pub proof fn law_network_challenges_are_solved(
    challenge: Challenge,
    address: Seq<char>,
    nonce: u64,
    proof_target: u64,
    solution: Option<Solution>,
)
    requires
        challenge.degree == PUZZLE_DEGREE,
        encodings(solution) == solution_of(PUZZLE_DEGREE, challenge, address, nonce, proof_target),
    ensures
        match proved(
            PUZZLE_DEGREE,
            challenge.epoch_number,
            challenge.block_hash@,
            PUZZLE_DEGREE,
            address,
            nonce,
            proof_target,
        ) {
            Some((commitment, encoded)) => solution matches Some(found) && found.commitment@
                == commitment && found.encoded@ == encoded,
            None => solution is None,
        },
{
}

/// On any challenge whose degree lies between the same powers of two as that of the key, an attempt
/// brings whatever `CoinbasePuzzle::prove` brings, and on any other challenge nothing.
pub proof fn law_fitting_challenges_are_solved(
    key_degree: u32,
    e: nat,
    challenge: Challenge,
    address: Seq<char>,
    nonce: u64,
    proof_target: u64,
    solution: Option<Solution>,
)
    requires
        pow2(e) <= key_degree < pow2(e + 1),
        encodings(solution) == solution_of(key_degree, challenge, address, nonce, proof_target),
    ensures
        pow2(e) <= challenge.degree < pow2(e + 1) ==> match proved(
            key_degree,
            challenge.epoch_number,
            challenge.block_hash@,
            challenge.degree,
            address,
            nonce,
            proof_target,
        ) {
            Some((commitment, encoded)) => solution matches Some(found) && found.commitment@
                == commitment && found.encoded@ == encoded,
            None => solution is None,
        },
        !(pow2(e) <= challenge.degree < pow2(e + 1)) ==> solution is None,
{
    law_key_fits_octave(key_degree, challenge.degree, e);
}

/// A solution that answers an attempt has the attempt's nonce and address, and its hash times the
/// proof target does not exceed the largest hash.
pub proof fn law_answer_is_for_its_attempt(
    solution: Solution,
    address: Seq<char>,
    nonce: u64,
    proof_target: u64,
)
    requires
        answers(solution, address, nonce, proof_target),
    ensures
        solution.nonce == nonce,
        crate::account::parsed_address(address) == Some(solution.address@),
        sha256d(solution.commitment@) * proof_target <= u64::MAX,
{
    law_target_is_met_by_product(solution.commitment@, proof_target);
}

/// A commitment meets a proof target exactly when its hash times the target does not exceed the
/// largest hash.
pub proof fn law_target_is_met_by_product(commitment: Seq<u8>, proof_target: u64)
    ensures
        meets(commitment, proof_target) <==> sha256d(commitment) * proof_target <= u64::MAX,
{
    let hash = sha256d(commitment) as int;
    let target = proof_target as int;
    let max = u64::MAX as int;
    if hash == 0 {
        assert(hash * target == 0) by (nonlinear_arith)
            requires
                hash == 0,
        ;
    } else {
        vstd::arithmetic::div_mod::lemma_fundamental_div_mod(max, hash);
        let quotient = max / hash;
        assert(quotient >= target <==> hash * target <= max) by (nonlinear_arith)
            requires
                max == hash * quotient + max % hash,
                0 <= max % hash < hash,
                hash > 0,
                target >= 0,
        ;
    }
}

/// The smaller the hash of a commitment, the higher its difficulty.
pub proof fn law_difficulty_falls_with_hash(low: u64, high: u64)
    requires
        0 < low <= high,
    ensures
        u64::MAX / high <= u64::MAX / low,
{
    vstd::arithmetic::div_mod::lemma_div_is_ordered_by_denominator(
        u64::MAX as int,
        low as int,
        high as int,
    );
}

/// A solution has difficulty `target` or more exactly when its hash is at most the largest
/// hash divided by `target`.
pub proof fn law_difficulty_meets_target(hash: u64, target: u64)
    requires
        hash != 0,
        target != 0,
    ensures
        u64::MAX / hash >= target <==> hash <= u64::MAX / target,
{
    let max = u64::MAX as int;
    let h = hash as int;
    let t = target as int;
    vstd::arithmetic::div_mod::lemma_fundamental_div_mod(max, h);
    vstd::arithmetic::div_mod::lemma_fundamental_div_mod(max, t);
    let q = max / h;
    let p = max / t;
    assert(q >= t <==> h * t <= max) by (nonlinear_arith)
        requires
            max == h * q + max % h,
            0 <= max % h < h,
            h > 0,
            t > 0,
    ;
    assert(p >= h <==> h * t <= max) by (nonlinear_arith)
        requires
            max == t * p + max % t,
            0 <= max % t < t,
            h > 0,
            t > 0,
    ;
}

} // verus!
