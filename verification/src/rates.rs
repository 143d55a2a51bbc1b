//! How fast the prover works, over the last minutes and up to an hour.

use std::collections::VecDeque;

use vstd::prelude::*;

verus! {

/// The number of minutes that the log looks back.
pub const LOG_MINUTES: usize = 60;

/// The number of seconds between two samples of the log.
pub const SAMPLE_SECONDS: u32 = 60;

/// A rate: this many attempts in this many seconds.
#[derive(Clone, Copy, Debug, PartialEq, Eq, Structural)]
pub struct Rate {
    pub proofs: u32,
    pub seconds: u32,
}

/// The rate over `interval` minutes between two counts of attempts. There is none over no
/// time, without progress, or when the earlier count was not taken yet. Seconds are counted in
/// thirty-two bits.
pub open spec fn proof_rate(now: u32, past: u32, interval: u32) -> Option<Rate> {
    if interval < 1 || now <= past || past == 0 {
        None
    } else {
        Some(
            Rate {
                proofs: (now - past) as u32,
                seconds: ((interval * SAMPLE_SECONDS) % 0x1_0000_0000) as u32,
            },
        )
    }
}

/// The rate over `interval` minutes between two counts of attempts. There is none over no
/// time, without progress, or when the earlier count was not taken yet.
pub fn calculate_proof_rate(now: u32, past: u32, interval: u32) -> (rate: Option<Rate>)
    ensures
        rate == proof_rate(now, past, interval),
        rate is Some <==> interval > 0 && 0 < past < now,
        rate matches Some(rate) ==> past + rate.proofs == now && rate.seconds == (60 * interval)
            % 0x1_0000_0000,
{
    if interval < 1 {
        return None;
    }
    if now <= past || past == 0 {
        return None;
    }
    Some(Rate { proofs: now - past, seconds: interval.wrapping_mul(SAMPLE_SECONDS) })
}

/// The count of attempts and how fast it grew.
#[derive(Clone, Copy, Debug, PartialEq, Eq, Structural)]
pub struct RateReport {
    pub proofs: u32,
    pub m1: Option<Rate>,
    pub m5: Option<Rate>,
    pub m15: Option<Rate>,
    pub m30: Option<Rate>,
    pub m60: Option<Rate>,
}

/// The counts of attempts, one for each minute of the last hour, the oldest first.
pub struct ProofLog {
    samples: VecDeque<u32>,
}

impl View for ProofLog {
    type V = Seq<u32>;

    closed spec fn view(&self) -> Seq<u32> {
        self.samples@
    }
}

/// The log after `samples` were taken: the last hour of them, with zeros for the minutes
/// before the first one.
pub open spec fn last_hour(samples: Seq<u32>) -> Seq<u32> {
    (Seq::new(LOG_MINUTES as nat, |i: int| 0u32) + samples).skip(samples.len() as int)
}

impl ProofLog {
    /// Whether the log holds one count for each minute.
    pub open spec fn wf(self) -> bool {
        self@.len() == LOG_MINUTES
    }

    /// The log of a prover that has just started.
    pub fn new() -> (log: ProofLog)
        ensures
            log.wf(),
            log@ == last_hour(seq![]),
    {
        let mut samples: VecDeque<u32> = VecDeque::new();
        let mut i: usize = 0;
        while i < LOG_MINUTES
            invariant
                i <= LOG_MINUTES,
                samples@ =~= Seq::new(i as nat, |j: int| 0u32),
            decreases LOG_MINUTES - i,
        {
            samples.push_back(0);
            i = i + 1;
        }
        proof {
            assert(samples@ =~= last_hour(seq![]));
        }
        ProofLog { samples }
    }

    /// Takes the count of a new minute, drops the oldest one and compares.
    pub fn tick(&mut self, proofs: u32) -> (report: RateReport)
        requires
            old(self).wf(),
        ensures
            final(self).wf(),
            final(self)@ == old(self)@.drop_first().push(proofs),
            report == (RateReport {
                proofs,
                m1: proof_rate(proofs, old(self)@[LOG_MINUTES - 1], 1),
                m5: proof_rate(proofs, old(self)@[LOG_MINUTES - 5], 5),
                m15: proof_rate(proofs, old(self)@[LOG_MINUTES - 15], 15),
                m30: proof_rate(proofs, old(self)@[LOG_MINUTES - 30], 30),
                m60: proof_rate(proofs, old(self)@[LOG_MINUTES - 60], 60),
            }),
    {
        let m1: u32 = self.samples[59];
        let m5: u32 = self.samples[55];
        let m15: u32 = self.samples[45];
        let m30: u32 = self.samples[30];
        let m60: u32 = self.samples[0];
        let ghost before = self.samples@;
        self.samples.push_back(proofs);
        let _oldest: Option<u32> = self.samples.pop_front();
        proof {
            assert(self.samples@ =~= before.drop_first().push(proofs));
        }
        RateReport {
            proofs,
            m1: calculate_proof_rate(proofs, m1, 1),
            m5: calculate_proof_rate(proofs, m5, 5),
            m15: calculate_proof_rate(proofs, m15, 15),
            m30: calculate_proof_rate(proofs, m30, 30),
            m60: calculate_proof_rate(proofs, m60, 60),
        }
    }
}

/// The log always holds the last hour: a tick turns the last hour of what was sampled so far
/// into the last hour of what was sampled with it.
pub proof fn law_log_holds_last_hour(samples: Seq<u32>, next: u32)
    ensures
        last_hour(samples).len() == LOG_MINUTES,
        last_hour(samples).drop_first().push(next) == last_hour(samples.push(next)),
{
    assert(last_hour(samples).drop_first().push(next) =~= last_hour(samples.push(next)));
}

/// A rate over some minutes looks at the count that was taken that many minutes before, or at
/// zero if the prover was not running then.
pub proof fn law_log_looks_back(samples: Seq<u32>, minutes: int)
    requires
        1 <= minutes <= LOG_MINUTES,
    ensures
        last_hour(samples)[LOG_MINUTES - minutes] == if minutes <= samples.len() {
            samples[samples.len() - minutes]
        } else {
            0
        },
{
}

/// There is a rate exactly when the interval is not empty, the earlier count was taken and the count
/// has grown. The attempts of the rate lead from the earlier count to the later one, and its seconds
/// are sixty for each minute, as far as thirty-two bits go.
pub proof fn law_rate_is_growth_over_time(now: u32, past: u32, interval: u32)
    ensures
        proof_rate(now, past, interval) is Some <==> interval > 0 && 0 < past < now,
        proof_rate(now, past, interval) matches Some(rate) ==> past + rate.proofs == now && (60
            * interval - rate.seconds) % 0x1_0000_0000 == 0,
{
}

} // verus!
