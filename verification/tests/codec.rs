use aleo_prover::codec::{decode_job_id, to_le_bytes, JobIdError};

#[test]
fn job_id_is_little_endian_hex() {
    assert_eq!(decode_job_id("87280600"), Ok(403591));
    assert_eq!(decode_job_id("00000000"), Ok(0));
    assert_eq!(decode_job_id("ffffffff"), Ok(u32::MAX));
    assert_eq!(decode_job_id("01020304"), Ok(0x0403_0201));
}

#[test]
fn job_id_takes_both_cases() {
    assert_eq!(decode_job_id("ABcdEF00"), Ok(0x00ef_cdab));
    assert_eq!(decode_job_id("abCDef00"), Ok(0x00ef_cdab));
}

#[test]
fn job_id_of_wrong_length() {
    assert_eq!(decode_job_id(""), Err(JobIdError::Length(0)));
    assert_eq!(decode_job_id("872806"), Err(JobIdError::Length(3)));
    assert_eq!(decode_job_id("8728060000"), Err(JobIdError::Length(5)));
}

#[test]
fn job_id_that_is_not_hex() {
    assert_eq!(decode_job_id("8728060"), Err(JobIdError::NotHex));
    assert_eq!(decode_job_id("8728060g"), Err(JobIdError::NotHex));
    assert_eq!(decode_job_id("0x872806"), Err(JobIdError::NotHex));
    assert_eq!(decode_job_id("\u{e9}\u{e9}\u{e9}\u{e9}"), Err(JobIdError::NotHex));
}

#[test]
fn job_id_names_height() {
    for height in [0u32, 1, 255, 256, 403591, u32::MAX] {
        assert_eq!(decode_job_id(&hex::encode(height.to_le_bytes())), Ok(height));
    }
}

#[test]
fn le_bytes_of_numbers() {
    assert_eq!(to_le_bytes(0), vec![0; 8]);
    assert_eq!(to_le_bytes(0x0102_0304_0506_0708), vec![8, 7, 6, 5, 4, 3, 2, 1]);
    assert_eq!(to_le_bytes(u64::MAX), vec![255; 8]);
}

#[test]
fn le_round_trip() {
    for n in [0u64, 1, 256, 0x0102_0304_0506_0708, u64::MAX] {
        let bytes: [u8; 8] = to_le_bytes(n).try_into().unwrap();
        assert_eq!(u64::from_le_bytes(bytes), n);
    }
}
