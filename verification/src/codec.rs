//! Hexadecimal text, little-endian numbers and the job ids that combine the two.

use vstd::prelude::*;

verus! {

/// The number of bytes in a job id.
pub const JOB_ID_BYTES: usize = 4;

/// Whether `c` is a hexadecimal digit, in either case.
pub open spec fn is_hex_digit(c: char) -> bool {
    '0' <= c <= '9' || 'a' <= c <= 'f' || 'A' <= c <= 'F'
}

/// The value of a hexadecimal digit.
pub open spec fn hex_digit_value(c: char) -> nat
    recommends
        is_hex_digit(c),
{
    if '0' <= c <= '9' {
        (c as nat - '0' as nat) as nat
    } else if 'a' <= c <= 'f' {
        (c as nat - 'a' as nat + 10) as nat
    } else {
        (c as nat - 'A' as nat + 10) as nat
    }
}

/// Whether `text` spells whole bytes in hexadecimal.
pub open spec fn is_hex(text: Seq<char>) -> bool {
    &&& text.len() % 2 == 0
    &&& forall|i: int| 0 <= i < text.len() ==> is_hex_digit(#[trigger] text[i])
}

/// The bytes that `text` spells, two digits each, the high digit first.
pub open spec fn hex_bytes(text: Seq<char>) -> Seq<u8> {
    Seq::new(
        text.len() / 2,
        |i: int| (16 * hex_digit_value(text[2 * i]) + hex_digit_value(text[2 * i + 1])) as u8,
    )
}

/// The number that `bytes` spell, the least significant byte first.
pub open spec fn le_value(bytes: Seq<u8>) -> nat
    decreases bytes.len(),
{
    if bytes.len() == 0 {
        0
    } else {
        bytes[0] as nat + 256 * le_value(bytes.drop_first())
    }
}

/// The `width` least significant bytes of `n`, the least significant one first.
pub open spec fn le_bytes(n: nat, width: nat) -> Seq<u8>
    decreases width,
{
    if width == 0 {
        seq![]
    } else {
        seq![(n % 256) as u8] + le_bytes(n / 256, (width - 1) as nat)
    }
}

/// `hex::decode`, whose errors all mean that the text is not hexadecimal: it yields bytes
/// exactly on an even number of hexadecimal digits of either case, and each byte is sixteen
/// times its first digit plus its second.
#[verifier::external_body]
fn hex_decode(text: &str) -> (bytes: Option<Vec<u8>>)
    ensures
        bytes is Some <==> is_hex(text@),
        bytes matches Some(bytes) ==> bytes@ == hex_bytes(text@),
{
    hex::decode(text).ok()
}

/// Why a job id names no block height.
#[derive(Clone, Copy, Debug, PartialEq, Eq)]
pub enum JobIdError {
    /// The text is not hexadecimal.
    NotHex,
    /// The text spells this many bytes instead of [`JOB_ID_BYTES`].
    Length(usize),
}

/// The block height that a job id names: four bytes in hexadecimal, little-endian.
pub fn decode_job_id(job_id: &str) -> (height: Result<u32, JobIdError>)
    ensures
        height == Err::<u32, JobIdError>(JobIdError::NotHex) <==> !is_hex(job_id@),
        forall|n: usize|
            height == Err::<u32, JobIdError>(JobIdError::Length(n)) <==> is_hex(job_id@) && n
                == hex_bytes(job_id@).len() && n != JOB_ID_BYTES,
        height is Ok <==> is_hex(job_id@) && hex_bytes(job_id@).len() == JOB_ID_BYTES,
        height matches Ok(height) ==> height as nat == le_value(hex_bytes(job_id@)),
        height matches Ok(height) ==> height == hex_bytes(job_id@)[0] + 0x100 * hex_bytes(
            job_id@,
        )[1] + 0x1_0000 * hex_bytes(job_id@)[2] + 0x100_0000 * hex_bytes(job_id@)[3],
{
    match hex_decode(job_id) {
        None => Err(JobIdError::NotHex),
        Some(bytes) => {
            if bytes.len() != JOB_ID_BYTES {
                return Err(JobIdError::Length(bytes.len()));
            }
            proof {
                reveal_with_fuel(le_value, 5);
                let s = bytes@;
                assert(s.drop_first()[0] == s[1]);
                assert(s.drop_first().drop_first()[0] == s[2]);
                assert(s.drop_first().drop_first().drop_first()[0] == s[3]);
            }
            Ok(
                bytes[0] as u32 + 0x100 * (bytes[1] as u32) + 0x1_0000 * (bytes[2] as u32)
                    + 0x100_0000 * (bytes[3] as u32),
            )
        },
    }
}

/// The eight bytes of `n`, the least significant one first.
pub fn to_le_bytes(n: u64) -> (bytes: Vec<u8>)
    ensures
        bytes@ == le_bytes(n as nat, 8),
{
    let mut bytes: Vec<u8> = Vec::new();
    let mut rest: u64 = n;
    let mut done: usize = 0;
    while done < 8
        invariant
            done <= 8,
            bytes@ + le_bytes(rest as nat, (8 - done) as nat) == le_bytes(n as nat, 8),
        decreases 8 - done,
    {
        let ghost before = bytes@;
        bytes.push((rest % 256) as u8);
        proof {
            assert(before + le_bytes(rest as nat, (8 - done) as nat) =~= bytes@ + le_bytes(
                (rest / 256) as nat,
                (8 - done - 1) as nat,
            ));
        }
        rest = rest / 256;
        done = done + 1;
    }
    proof {
        assert(bytes@ + le_bytes(rest as nat, 0) =~= bytes@);
    }
    bytes
}

/// The `width` least significant bytes of a number are `width` bytes.
pub(crate) proof fn lemma_le_bytes_len(n: nat, width: nat)
    ensures
        le_bytes(n, width).len() == width,
    decreases width,
{
    if width > 0 {
        lemma_le_bytes_len(n / 256, (width - 1) as nat);
    }
}

/// Writing a number that fits in `width` bytes and reading it back gives the number.
pub proof fn law_le_round_trip(n: nat, width: nat)
    requires
        n < vstd::arithmetic::power::pow(256, width),
    ensures
        le_bytes(n, width).len() == width,
        le_value(le_bytes(n, width)) == n,
    decreases width,
{
    reveal(vstd::arithmetic::power::pow);
    if width > 0 {
        assert(n / 256 < vstd::arithmetic::power::pow(256, (width - 1) as nat)) by (nonlinear_arith)
            requires
                n < 256 * vstd::arithmetic::power::pow(256, (width - 1) as nat),
        ;
        law_le_round_trip(n / 256, (width - 1) as nat);
        assert(le_bytes(n, width).drop_first() =~= le_bytes(n / 256, (width - 1) as nat));
    }
}

/// A job id that spells the four little-endian bytes of a height names that height.
pub proof fn law_job_id_names_height(job_id: Seq<char>, height: u32)
    requires
        is_hex(job_id),
        hex_bytes(job_id) == le_bytes(height as nat, JOB_ID_BYTES as nat),
    ensures
        hex_bytes(job_id).len() == JOB_ID_BYTES,
        le_value(hex_bytes(job_id)) == height,
{
    reveal_with_fuel(vstd::arithmetic::power::pow, 5);
    law_le_round_trip(height as nat, 4);
}

/// The sixteen hexadecimal digits stand for the numbers below sixteen, in order, and letters in
/// either case. There are no others.
pub proof fn law_hex_digits(c: char)
    ensures
        forall|v: int|
            0 <= v < 16 ==> is_hex_digit(#[trigger] "0123456789abcdef"@[v]) && hex_digit_value(
                "0123456789abcdef"@[v],
            ) == v,
        forall|v: int|
            0 <= v < 16 ==> is_hex_digit(#[trigger] "0123456789ABCDEF"@[v]) && hex_digit_value(
                "0123456789ABCDEF"@[v],
            ) == v,
        is_hex_digit(c) ==> "0123456789abcdef"@.contains(c) || "0123456789ABCDEF"@.contains(c),
{
    reveal_strlit("0123456789abcdef");
    reveal_strlit("0123456789ABCDEF");
    if is_hex_digit(c) {
        if c <= '9' {
            assert("0123456789abcdef"@[c as int - '0' as int] == c);
        } else if 'a' <= c {
            assert("0123456789abcdef"@[c as int - 'a' as int + 10] == c);
        } else {
            assert("0123456789ABCDEF"@[c as int - 'A' as int + 10] == c);
        }
    }
}

/// Hexadecimal text is read two digits at a time: no text spells no bytes, a single character
/// spells nothing, and two characters in front spell one byte in front.
pub proof fn law_hex_reads_pairs(high: char, low: char, rest: Seq<char>)
    ensures
        is_hex(seq![]) && hex_bytes(seq![]).len() == 0,
        !is_hex(seq![high]),
        is_hex(seq![high, low] + rest) <==> is_hex_digit(high) && is_hex_digit(low) && is_hex(rest),
        is_hex_digit(high) && is_hex_digit(low) ==> hex_bytes(seq![high, low] + rest) == seq![
            (16 * hex_digit_value(high) + hex_digit_value(low)) as u8,
        ] + hex_bytes(rest),
{
    let text = seq![high, low] + rest;
    assert(text[0] == high);
    assert(text[1] == low);
    assert forall|i: int| 0 <= i < rest.len() implies #[trigger] rest[i] == text[i + 2] by {}
    if is_hex(text) {
        assert forall|i: int| 0 <= i < rest.len() implies is_hex_digit(#[trigger] rest[i]) by {
            assert(is_hex_digit(text[i + 2]));
        }
    }
    if is_hex_digit(high) && is_hex_digit(low) && is_hex(rest) {
        assert forall|i: int| 0 <= i < text.len() implies is_hex_digit(#[trigger] text[i]) by {
            if i >= 2 {
                assert(is_hex_digit(rest[i - 2]));
            }
        }
    }
    if is_hex_digit(high) && is_hex_digit(low) {
        assert(hex_bytes(text) =~= seq![(16 * hex_digit_value(high) + hex_digit_value(low)) as u8]
            + hex_bytes(rest));
    }
}

/// Byte number `i` of a number is what is left of it behind `i` divisions by 256, modulo 256.
pub proof fn law_le_bytes_are_digits(n: nat, width: nat, i: nat)
    requires
        i < width,
    ensures
        le_bytes(n, width).len() == width,
        le_bytes(n, width)[i as int] == (n as int / vstd::arithmetic::power::pow(256, i)) % 256,
    decreases width,
{
    lemma_le_bytes_len(n, width);
    lemma_le_bytes_len(n / 256, (width - 1) as nat);
    if i == 0 {
        vstd::arithmetic::power::lemma_pow0(256);
    } else {
        law_le_bytes_are_digits(n / 256, (width - 1) as nat, (i - 1) as nat);
        assert(le_bytes(n, width)[i as int] == le_bytes(n / 256, (width - 1) as nat)[i - 1]);
        reveal(vstd::arithmetic::power::pow);
        vstd::arithmetic::power::lemma_pow_positive(256, (i - 1) as nat);
        vstd::arithmetic::div_mod::lemma_div_denominator(
            n as int,
            256,
            vstd::arithmetic::power::pow(256, (i - 1) as nat),
        );
    }
}

} // verus!
