use aleo_prover::rates::{calculate_proof_rate, ProofLog, Rate};

#[test]
fn rates_between_counts() {
    assert_eq!(calculate_proof_rate(130, 10, 1), Some(Rate { proofs: 120, seconds: 60 }));
    assert_eq!(calculate_proof_rate(130, 10, 15), Some(Rate { proofs: 120, seconds: 900 }));
    assert_eq!(calculate_proof_rate(u32::MAX, 1, 60), Some(Rate { proofs: u32::MAX - 1, seconds: 3600 }));
}

#[test]
fn seconds_start_again() {
    assert_eq!(calculate_proof_rate(2, 1, 71582789), Some(Rate { proofs: 1, seconds: 44 }));
    assert_eq!(calculate_proof_rate(1, 1, u32::MAX), None);
}

#[test]
fn no_rate() {
    assert_eq!(calculate_proof_rate(130, 10, 0), None);
    assert_eq!(calculate_proof_rate(10, 10, 1), None);
    assert_eq!(calculate_proof_rate(9, 10, 1), None);
    assert_eq!(calculate_proof_rate(10, 0, 1), None);
}

#[test]
fn first_ticks_have_no_rate() {
    let mut log = ProofLog::new();
    let report = log.tick(100);
    assert_eq!(report.proofs, 100);
    assert_eq!((report.m1, report.m5, report.m15), (None, None, None));
    assert_eq!((report.m30, report.m60), (None, None));
    let report = log.tick(160);
    assert_eq!(report.m1, Some(Rate { proofs: 60, seconds: 60 }));
    assert_eq!(report.m5, None);
}

#[test]
fn log_looks_back() {
    let mut log = ProofLog::new();
    for minute in 1..=60 {
        log.tick(minute * 10);
    }
    let report = log.tick(610);
    assert_eq!(report.m1, Some(Rate { proofs: 10, seconds: 60 }));
    assert_eq!(report.m5, Some(Rate { proofs: 50, seconds: 300 }));
    assert_eq!(report.m15, Some(Rate { proofs: 150, seconds: 900 }));
    assert_eq!(report.m30, Some(Rate { proofs: 300, seconds: 1800 }));
    assert_eq!(report.m60, Some(Rate { proofs: 600, seconds: 3600 }));
}

#[test]
fn log_holds_last_hour() {
    let mut log = ProofLog::new();
    for minute in 1..=500u32 {
        let report = log.tick(minute * minute);
        if minute > 60 {
            let past = minute - 60;
            assert_eq!(
                report.m60,
                Some(Rate { proofs: minute * minute - past * past, seconds: 3600 })
            );
        } else {
            assert_eq!(report.m60, None);
        }
    }
}
