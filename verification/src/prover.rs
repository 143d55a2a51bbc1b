//! The state of the prover: its thread pools, the work it is on and what it has counted.

use vstd::prelude::*;
use vstd::string::*;

use rand::RngCore;

use crate::puzzle::{commitment_hash, difficulty_of_hash, prove, Challenge, Puzzle, Solution};
use crate::text::append_decimal;

verus! {

/// The stack size of each prover thread, in bytes.
pub const THREAD_STACK_SIZE: usize = 8388608;

/// One thread pool of the prover.
#[derive(Clone, Copy, Debug, PartialEq, Eq, Structural)]
pub struct PoolSpec {
    /// The position of the pool among the prover's pools.
    pub index: usize,
    /// The number of threads in the pool.
    pub threads: u16,
    /// Whether the pool serves GPU jobs.
    pub cuda: bool,
}

impl PoolSpec {
    /// The name of the pool's thread number `thread`.
    pub open spec fn spec_thread_name(self, thread: nat) -> Seq<char> {
        let kind = if self.cuda {
            "ap-cuda-"@
        } else {
            "ap-cpu-"@
        };
        kind + crate::text::decimal(self.index as nat) + "-"@ + crate::text::decimal(thread)
    }

    /// The name of the pool's thread number `thread`.
    pub fn thread_name(&self, thread: usize) -> (name: String)
        ensures
            name@ == self.spec_thread_name(thread as nat),
            self.cuda ==> name@ == "ap-cuda-"@ + crate::text::decimal(self.index as nat) + "-"@
                + crate::text::decimal(thread as nat),
            !self.cuda ==> name@ == "ap-cpu-"@ + crate::text::decimal(self.index as nat) + "-"@
                + crate::text::decimal(thread as nat),
    {
        let mut name: String = if self.cuda {
            "ap-cuda-".to_string()
        } else {
            "ap-cpu-".to_string()
        };
        append_decimal(&mut name, self.index as u64);
        name.append("-");
        append_decimal(&mut name, thread as u64);
        name
    }
}

/// How many thread pools the prover runs. On the CPU it fills as many whole pools as it has
/// threads for, and at least one. With GPUs it runs one pool for each job of each GPU.
pub open spec fn pool_count(
    threads: nat,
    thread_pool_size: nat,
    gpus: Option<nat>,
    jobs_per_gpu: nat,
) -> nat {
    match gpus {
        None => if threads < thread_pool_size {
            1
        } else {
            threads / thread_pool_size
        },
        Some(gpus) => jobs_per_gpu * gpus,
    }
}

/// The number of GPUs in a list of GPU indexes.
pub open spec fn gpu_count(cuda: Option<Vec<i16>>) -> Option<nat> {
    match cuda {
        None => None,
        Some(gpus) => Some(gpus@.len()),
    }
}

/// The number of jobs that each GPU runs at a time.
pub open spec fn jobs_per_gpu(cuda_jobs: Option<u8>) -> nat {
    match cuda_jobs {
        None => 1,
        Some(jobs) => jobs as nat,
    }
}

/// What the prover is told by its client. The challenge is of the kind that the proofs take.
pub enum ProverEvent<C> {
    /// Solutions need this difficulty from now on.
    NewTarget(u64),
    /// There is work for an epoch: its number, its challenge and the address to prove for.
    NewWork(u32, C, String),
    /// A share was accepted or rejected, perhaps with a word on it.
    ShareResult(bool, Option<String>),
}

/// Work that every thread pool of the prover takes up.
pub struct WorkOrder<C> {
    /// The epoch that the work is for.
    pub epoch_number: u32,
    /// The challenge of the epoch.
    pub challenge: C,
    /// The address that the solutions are for.
    pub address: String,
    /// The number of workers, one for each thread pool.
    pub workers: usize,
    /// Whether GPUs were asked for, of which only the first one is used.
    pub first_gpu_only: bool,
}

impl WorkOrder<Challenge> {
    /// Makes an attempt at the work: on the challenge and for the address of the order, at the nonce
    /// and for the proof target of the attempt.
    pub fn make_attempt(&self, puzzle: &Puzzle, attempt: Attempt) -> (solution: Option<Solution>)
        ensures
            crate::puzzle::encodings(solution) == crate::puzzle::solution_of(
                puzzle.spec_degree(),
                self.challenge,
                self.address@,
                attempt.nonce,
                attempt.proof_target,
            ),
            solution matches Some(solution) ==> crate::puzzle::answers(
                solution,
                self.address@,
                attempt.nonce,
                attempt.proof_target,
            ),
            self.challenge.degree > 0 && crate::puzzle::bit_length(self.challenge.degree as nat)
                == crate::puzzle::bit_length(puzzle.spec_degree() as nat)
                ==> crate::puzzle::proved(
                puzzle.spec_degree(),
                self.challenge.epoch_number,
                self.challenge.block_hash@,
                self.challenge.degree,
                self.address@,
                attempt.nonce,
                attempt.proof_target,
            ) == match solution {
                Some(solution) => Some((solution.commitment@, solution.encoded@)),
                None => None,
            },
            solution matches Some(solution) ==> solution.nonce == attempt.nonce && Some(
                solution.address@,
            ) == crate::account::parsed_address(self.address@),
    {
        prove(puzzle, &self.challenge, self.address.as_str(), attempt.nonce, attempt.proof_target)
    }
}

/// The standing of the prover's shares after one more result.
pub struct ShareReport {
    /// Whether the share was accepted.
    pub accepted: bool,
    /// What came with the result.
    pub message: Option<String>,
    /// The number of accepted shares.
    pub valid: u32,
    /// The number of shares.
    pub total: u32,
}

/// What an event leads to.
pub enum ProverReaction<C> {
    /// The proof target is now this one.
    TargetSet(u64),
    /// The workers of earlier epochs stop, and new ones start.
    StartWork(WorkOrder<C>),
    /// The work is not newer than what the prover is on.
    IgnoreWork,
    /// A share was counted.
    Share(ShareReport),
}

/// An attempt at a solution: what it is handed besides the challenge and the address.
#[derive(Clone, Copy, Debug, PartialEq, Eq, Structural)]
pub struct Attempt {
    /// The nonce to try.
    pub nonce: u64,
    /// The difficulty that a solution needs.
    pub proof_target: u64,
}

/// What a worker does when an attempt at a solution is over.
pub enum WorkerAction {
    /// Stop: the work is stale.
    Stop,
    /// Try again.
    Retry,
    /// Send the solution, which has this difficulty, and try again.
    Submit(Solution, u64),
}

/// The counters and the current work of a prover.
pub struct ProverState {
    pub current_epoch: u32,
    pub total_proofs: u32,
    pub valid_shares: u32,
    pub invalid_shares: u32,
    pub current_proof_target: u64,
}

/// What can happen to a prover, as far as its counters and its current work go.
pub enum Happening {
    /// A new proof target arrived.
    Target(u64),
    /// Work for an epoch arrived.
    Work(u32),
    /// A share was accepted or rejected.
    Share(bool),
    /// A worker on an epoch ended an attempt, with a solution or without one.
    Attempt(u32, bool),
}

/// The counter after `n`. Counters start again from zero behind the largest number.
pub open spec fn next_count(n: u32) -> u32 {
    if n == u32::MAX {
        0
    } else {
        (n + 1) as u32
    }
}

/// The sum of two counters, which starts again from zero behind the largest number.
pub open spec fn count_sum(a: u32, b: u32) -> u32 {
    if a + b > u32::MAX {
        (a + b - 0x1_0000_0000) as u32
    } else {
        (a + b) as u32
    }
}

/// Whether an attempt by a worker on `epoch` counts: a solution for stale work does not.
pub open spec fn attempt_counts(state: ProverState, epoch: u32, solved: bool) -> bool {
    !solved || epoch == state.current_epoch
}

/// The attempt at `nonce` of a worker on `epoch`: none if its work is stale, else one for the
/// current proof target.
pub open spec fn attempt_of(state: ProverState, epoch: u32, nonce: u64) -> Option<Attempt> {
    if epoch == state.current_epoch {
        Some(Attempt { nonce, proof_target: state.current_proof_target })
    } else {
        None
    }
}

/// The state of the prover after `h`.
pub open spec fn step(state: ProverState, h: Happening) -> ProverState {
    match h {
        Happening::Target(target) => ProverState { current_proof_target: target, ..state },
        Happening::Work(epoch) => if epoch > state.current_epoch {
            ProverState { current_epoch: epoch, ..state }
        } else {
            state
        },
        Happening::Share(true) => ProverState {
            valid_shares: next_count(state.valid_shares),
            ..state
        },
        Happening::Share(false) => ProverState {
            invalid_shares: next_count(state.invalid_shares),
            ..state
        },
        Happening::Attempt(epoch, solved) => if attempt_counts(state, epoch, solved) {
            ProverState { total_proofs: next_count(state.total_proofs), ..state }
        } else {
            state
        },
    }
}

/// The state of the prover after everything in `history`, in order.
pub open spec fn run(state: ProverState, history: Seq<Happening>) -> ProverState
    decreases history.len(),
{
    if history.len() == 0 {
        state
    } else {
        step(run(state, history.drop_last()), history.last())
    }
}

impl<C> ProverEvent<C> {
    /// What the event is to the prover's counters and current work.
    pub open spec fn happening(self) -> Happening {
        match self {
            ProverEvent::NewTarget(target) => Happening::Target(target),
            ProverEvent::NewWork(epoch, _, _) => Happening::Work(epoch),
            ProverEvent::ShareResult(success, _) => Happening::Share(success),
        }
    }
}

/// `RngCore::next_u64` on the thread's random numbers: any number.
#[verifier::external_body]
fn random_nonce() -> u64 {
    rand::thread_rng().next_u64()
}

/// The prover.
pub struct Prover {
    /// The thread pools, each with a worker of its own.
    pub pools: Vec<PoolSpec>,
    /// The indexes of the GPUs to use, if any.
    pub cuda: Option<Vec<i16>>,
    /// The number of jobs that each GPU runs at a time.
    pub cuda_jobs: Option<u8>,
    /// The newest epoch that there was work for.
    pub current_epoch: u32,
    /// The number of attempts at a solution.
    pub total_proofs: u32,
    /// The number of accepted shares.
    pub valid_shares: u32,
    /// The number of rejected shares.
    pub invalid_shares: u32,
    /// The difficulty that a solution needs.
    pub current_proof_target: u64,
}

impl Prover {
    /// The counters and the current work.
    pub open spec fn state(self) -> ProverState {
        ProverState {
            current_epoch: self.current_epoch,
            total_proofs: self.total_proofs,
            valid_shares: self.valid_shares,
            invalid_shares: self.invalid_shares,
            current_proof_target: self.current_proof_target,
        }
    }

    /// Whether `other` has the same thread pools and GPUs.
    pub open spec fn same_layout(self, other: Prover) -> bool {
        &&& self.pools == other.pools
        &&& self.cuda == other.cuda
        &&& self.cuda_jobs == other.cuda_jobs
    }

    /// Lays out the thread pools of a prover that has done nothing yet.
    pub fn init(
        threads: u16,
        thread_pool_size: u8,
        cuda: Option<Vec<i16>>,
        cuda_jobs: Option<u8>,
    ) -> (prover: Prover)
        requires
            cuda is None ==> thread_pool_size > 0,
            pool_count(
                threads as nat,
                thread_pool_size as nat,
                gpu_count(cuda),
                jobs_per_gpu(cuda_jobs),
            ) <= usize::MAX,
        ensures
            prover.pools@.len() == pool_count(
                threads as nat,
                thread_pool_size as nat,
                gpu_count(cuda),
                jobs_per_gpu(cuda_jobs),
            ),
            forall|i: int|
                0 <= i < prover.pools@.len() ==> #[trigger] prover.pools@[i] == (PoolSpec {
                    index: i as usize,
                    threads: thread_pool_size as u16,
                    cuda: cuda is Some,
                }),
            prover.cuda == cuda,
            prover.cuda_jobs == cuda_jobs,
            prover.state() == (ProverState {
                current_epoch: 0,
                total_proofs: 0,
                valid_shares: 0,
                invalid_shares: 0,
                current_proof_target: 0,
            }),
            prover.current_epoch == 0 && prover.current_proof_target == 0,
            prover.total_proofs == 0 && prover.valid_shares == 0 && prover.invalid_shares == 0,
            cuda matches Some(gpus) ==> prover.pools@.len() == gpus@.len() * match cuda_jobs {
                Some(jobs) => jobs as nat,
                None => 1,
            },
            cuda is None && threads < thread_pool_size ==> prover.pools@.len() == 1,
            cuda is None && threads >= thread_pool_size ==> prover.pools@.len() == threads as nat
                / thread_pool_size as nat,
    {
        let pool_threads: u16 = thread_pool_size as u16;
        let use_cuda: bool = cuda.is_some();
        let count: usize = match &cuda {
            None => {
                if threads < pool_threads {
                    1
                } else {
                    (threads / pool_threads) as usize
                }
            },
            Some(gpus) => {
                let jobs: u8 = match cuda_jobs {
                    None => 1,
                    Some(jobs) => jobs,
                };
                jobs as usize * gpus.len()
            },
        };
        assert(count as nat == pool_count(
            threads as nat,
            thread_pool_size as nat,
            gpu_count(cuda),
            jobs_per_gpu(cuda_jobs),
        ));
        proof {
            if cuda is Some {
                vstd::arithmetic::mul::lemma_mul_is_commutative(
                    jobs_per_gpu(cuda_jobs) as int,
                    cuda->0@.len() as int,
                );
            }
        }
        let mut pools: Vec<PoolSpec> = Vec::new();
        let mut index: usize = 0;
        while index < count
            invariant
                index <= count,
                pools@.len() == index,
                forall|i: int|
                    0 <= i < pools@.len() ==> #[trigger] pools@[i] == (PoolSpec {
                        index: i as usize,
                        threads: pool_threads,
                        cuda: use_cuda,
                    }),
            decreases count - index,
        {
            pools.push(PoolSpec { index, threads: pool_threads, cuda: use_cuda });
            index = index + 1;
        }
        Prover {
            pools,
            cuda,
            cuda_jobs,
            current_epoch: 0,
            total_proofs: 0,
            valid_shares: 0,
            invalid_shares: 0,
            current_proof_target: 0,
        }
    }

    /// Takes in an event.
    pub fn handle<C>(&mut self, event: ProverEvent<C>) -> (reaction: ProverReaction<C>)
        ensures
            final(self).same_layout(*old(self)),
            final(self).state() == step(old(self).state(), event.happening()),
            match event {
                ProverEvent::NewTarget(target) => *final(self) == (Prover {
                    current_proof_target: target,
                    ..*old(self)
                }),
                ProverEvent::NewWork(epoch_number, _, _) => *final(self) == (Prover {
                    current_epoch: if epoch_number > old(self).current_epoch {
                        epoch_number
                    } else {
                        old(self).current_epoch
                    },
                    ..*old(self)
                }),
                ProverEvent::ShareResult(true, _) => *final(self) == (Prover {
                    valid_shares: ((old(self).valid_shares + 1) % 0x1_0000_0000) as u32,
                    ..*old(self)
                }),
                ProverEvent::ShareResult(false, _) => *final(self) == (Prover {
                    invalid_shares: ((old(self).invalid_shares + 1) % 0x1_0000_0000) as u32,
                    ..*old(self)
                }),
            },
            match event {
                ProverEvent::NewTarget(target) => reaction == ProverReaction::<C>::TargetSet(
                    target,
                ),
                ProverEvent::NewWork(epoch_number, challenge, address) => if epoch_number
                    > old(self).current_epoch {
                    reaction == ProverReaction::StartWork(
                        WorkOrder {
                            epoch_number,
                            challenge,
                            address,
                            workers: old(self).pools.len(),
                            first_gpu_only: old(self).cuda is Some,
                        },
                    )
                } else {
                    reaction == ProverReaction::<C>::IgnoreWork
                },
                ProverEvent::ShareResult(success, message) => reaction
                    == ProverReaction::<C>::Share(
                    ShareReport {
                        accepted: success,
                        message,
                        valid: final(self).valid_shares,
                        total: count_sum(final(self).valid_shares, final(self).invalid_shares),
                    },
                ),
            },
    {
        match event {
            ProverEvent::NewTarget(target) => {
                self.new_target(target);
                ProverReaction::TargetSet(target)
            },
            ProverEvent::NewWork(epoch_number, challenge, address) => {
                match self.new_work(epoch_number, challenge, address) {
                    Some(order) => ProverReaction::StartWork(order),
                    None => ProverReaction::IgnoreWork,
                }
            },
            ProverEvent::ShareResult(success, message) => ProverReaction::Share(
                self.result(success, message),
            ),
        }
    }

    /// Counts the result of a share.
    pub fn result(&mut self, success: bool, message: Option<String>) -> (report: ShareReport)
        ensures
            final(self).same_layout(*old(self)),
            final(self).state() == step(old(self).state(), Happening::Share(success)),
            report == (ShareReport {
                accepted: success,
                message,
                valid: final(self).valid_shares,
                total: count_sum(final(self).valid_shares, final(self).invalid_shares),
            }),
            success ==> *final(self) == (Prover {
                valid_shares: ((old(self).valid_shares + 1) % 0x1_0000_0000) as u32,
                ..*old(self)
            }),
            !success ==> *final(self) == (Prover {
                invalid_shares: ((old(self).invalid_shares + 1) % 0x1_0000_0000) as u32,
                ..*old(self)
            }),
            report.total == (final(self).valid_shares + final(self).invalid_shares)
                % 0x1_0000_0000,
    {
        if success {
            self.valid_shares = self.valid_shares.wrapping_add(1);
        } else {
            self.invalid_shares = self.invalid_shares.wrapping_add(1);
        }
        ShareReport {
            accepted: success,
            message,
            valid: self.valid_shares,
            total: self.valid_shares.wrapping_add(self.invalid_shares),
        }
    }

    /// Sets the difficulty that a solution needs.
    pub fn new_target(&mut self, proof_target: u64)
        ensures
            final(self).same_layout(*old(self)),
            final(self).state() == step(old(self).state(), Happening::Target(proof_target)),
            *final(self) == (Prover { current_proof_target: proof_target, ..*old(self) }),
    {
        self.current_proof_target = proof_target;
    }

    /// Takes up work for an epoch if it is newer than the current one.
    pub fn new_work<C>(&mut self, epoch_number: u32, challenge: C, address: String) -> (order:
        Option<WorkOrder<C>>)
        ensures
            final(self).same_layout(*old(self)),
            final(self).state() == step(old(self).state(), Happening::Work(epoch_number)),
            *final(self) == (Prover {
                current_epoch: if epoch_number > old(self).current_epoch {
                    epoch_number
                } else {
                    old(self).current_epoch
                },
                ..*old(self)
            }),
            order == (if epoch_number > old(self).current_epoch {
                Some(
                    WorkOrder {
                        epoch_number,
                        challenge,
                        address,
                        workers: old(self).pools.len(),
                        first_gpu_only: old(self).cuda is Some,
                    },
                )
            } else {
                None
            }),
    {
        if epoch_number <= self.current_epoch {
            return None;
        }
        self.current_epoch = epoch_number;
        Some(
            WorkOrder {
                epoch_number,
                challenge,
                address,
                workers: self.pools.len(),
                first_gpu_only: self.cuda.is_some(),
            },
        )
    }

    /// The next attempt of a worker on `epoch_number`, with a nonce chosen at random. A worker
    /// without one stops, because its work is stale.
    pub fn next_attempt(&self, epoch_number: u32) -> (attempt: Option<Attempt>)
        ensures
            exists|nonce: u64|
                attempt == #[trigger] attempt_of(self.state(), epoch_number, nonce),
            attempt is Some <==> epoch_number == self.current_epoch,
            attempt matches Some(attempt) ==> attempt.proof_target == self.current_proof_target,
    {
        self.attempt_at(epoch_number, random_nonce())
    }

    /// The attempt of a worker on `epoch_number` at this nonce, unless its work is stale.
    pub fn attempt_at(&self, epoch_number: u32, nonce: u64) -> (attempt: Option<Attempt>)
        ensures
            attempt == attempt_of(self.state(), epoch_number, nonce),
            attempt is Some <==> epoch_number == self.current_epoch,
            attempt matches Some(attempt) ==> attempt.nonce == nonce && attempt.proof_target
                == self.current_proof_target,
    {
        if epoch_number != self.current_epoch {
            return None;
        }
        Some(Attempt { nonce, proof_target: self.current_proof_target })
    }

    /// Whether ending this attempt asks for the difficulty of a solution.
    pub open spec fn asks_difficulty(self, epoch_number: u32, solution: Option<Solution>) -> bool {
        solution is Some && epoch_number == self.current_epoch
    }

    /// Ends an attempt of a worker on `epoch_number`.
    pub fn finish_attempt(
        &mut self,
        epoch_number: u32,
        solution: Option<Solution>,
    ) -> (action: WorkerAction)
        requires
            old(self).asks_difficulty(epoch_number, solution) ==> crate::puzzle::sha256d(
                solution->0.commitment@,
            ) != 0,
        ensures
            final(self).same_layout(*old(self)),
            final(self).state() == step(
                old(self).state(),
                Happening::Attempt(epoch_number, solution is Some),
            ),
            *final(self) == (Prover {
                total_proofs: if solution is None || epoch_number == old(self).current_epoch {
                    ((old(self).total_proofs + 1) % 0x1_0000_0000) as u32
                } else {
                    old(self).total_proofs
                },
                ..*old(self)
            }),
            match solution {
                None => action == WorkerAction::Retry,
                Some(solution) => if epoch_number == old(self).current_epoch {
                    action == WorkerAction::Submit(
                        solution,
                        (u64::MAX / crate::puzzle::sha256d(solution.commitment@)) as u64,
                    )
                } else {
                    action == WorkerAction::Stop
                },
            },
    {
        match solution {
            None => {
                self.total_proofs = self.total_proofs.wrapping_add(1);
                WorkerAction::Retry
            },
            Some(solution) => {
                if epoch_number != self.current_epoch {
                    return WorkerAction::Stop;
                }
                let hash: u64 = commitment_hash(&solution.commitment);
                self.total_proofs = self.total_proofs.wrapping_add(1);
                submission(solution, hash)
            },
        }
    }

    /// Ends an attempt of a worker on `epoch_number`. Without a result and without a change if
    /// the solution has no difficulty because its commitment hashes to zero.
    pub fn try_finish_attempt(
        &mut self,
        epoch_number: u32,
        solution: Option<Solution>,
    ) -> (action: Option<WorkerAction>)
        ensures
            action is None <==> old(self).asks_difficulty(epoch_number, solution)
                && crate::puzzle::sha256d(solution->0.commitment@) == 0,
            action is None <==> solution is Some && epoch_number == old(self).current_epoch
                && crate::puzzle::sha256d(solution->0.commitment@) == 0,
            action is Some ==> *final(self) == (Prover {
                total_proofs: if solution is None || epoch_number == old(self).current_epoch {
                    ((old(self).total_proofs + 1) % 0x1_0000_0000) as u32
                } else {
                    old(self).total_proofs
                },
                ..*old(self)
            }),
            action is None ==> *final(self) == *old(self),
            action matches Some(action) ==> {
                &&& final(self).same_layout(*old(self))
                &&& final(self).state() == step(
                    old(self).state(),
                    Happening::Attempt(epoch_number, solution is Some),
                )
                &&& match solution {
                    None => action == WorkerAction::Retry,
                    Some(solution) => if epoch_number == old(self).current_epoch {
                        action == WorkerAction::Submit(
                            solution,
                            (u64::MAX / crate::puzzle::sha256d(solution.commitment@)) as u64,
                        )
                    } else {
                        action == WorkerAction::Stop
                    },
                }
            },
    {
        match &solution {
            None => {},
            Some(found) => {
                if epoch_number == self.current_epoch && commitment_hash(&found.commitment) == 0 {
                    return None;
                }
            },
        }
        Some(self.finish_attempt(epoch_number, solution))
    }
}

/// What a worker does with a solution to current work whose commitment has this hash.
pub fn submission(solution: Solution, hash: u64) -> (action: WorkerAction)
    requires
        hash != 0,
    ensures
        action == WorkerAction::Submit(solution, (u64::MAX / hash) as u64),
{
    let difficulty: u64 = difficulty_of_hash(hash);
    WorkerAction::Submit(solution, difficulty)
}

/// The pools of a CPU prover use no more threads than it was given, unless these do not fill
/// one pool, and leave less than one pool of them idle.
pub proof fn law_pools_fit_threads(threads: nat, thread_pool_size: nat, jobs: nat)
    requires
        0 < thread_pool_size <= threads,
    ensures
        pool_count(threads, thread_pool_size, None, jobs) * thread_pool_size <= threads,
        threads < (pool_count(threads, thread_pool_size, None, jobs) + 1) * thread_pool_size,
{
    let count = threads / thread_pool_size;
    vstd::arithmetic::div_mod::lemma_fundamental_div_mod(threads as int, thread_pool_size as int);
    assert(count * thread_pool_size <= threads && threads < (count + 1) * thread_pool_size)
        by (nonlinear_arith)
        requires
            threads == thread_pool_size * count + threads % thread_pool_size,
            0 <= threads % thread_pool_size < thread_pool_size,
    ;
}

/// With GPUs there is one pool for each job of each GPU, whatever the number of threads: none
/// without a GPU, as many more with each further GPU as it runs jobs, and as many more with each
/// further job as there are GPUs.
pub proof fn law_each_gpu_adds_its_jobs(
    threads: nat,
    thread_pool_size: nat,
    gpus: nat,
    jobs: nat,
)
    ensures
        pool_count(threads, thread_pool_size, Some(0), jobs) == 0,
        pool_count(threads, thread_pool_size, Some(gpus), 0) == 0,
        pool_count(threads, thread_pool_size, Some((gpus + 1) as nat), jobs) == pool_count(
            threads,
            thread_pool_size,
            Some(gpus),
            jobs,
        ) + jobs,
        pool_count(threads, thread_pool_size, Some(gpus), (jobs + 1) as nat) == pool_count(
            threads,
            thread_pool_size,
            Some(gpus),
            jobs,
        ) + gpus,
        pool_count(threads, thread_pool_size, Some(gpus), 1) == gpus,
        pool_count(threads, thread_pool_size, Some(2), jobs) == 2 * jobs,
{
    assert(jobs * (gpus + 1) == jobs * gpus + jobs && (jobs + 1) * gpus == jobs * gpus + gpus)
        by (nonlinear_arith);
    assert(0 * gpus == 0 && jobs * 0 == 0 && 1 * gpus == gpus && jobs * 2 == 2 * jobs)
        by (nonlinear_arith);
}

/// A list of GPUs counts each of its entries, and a GPU runs one job at a time unless the user says
/// otherwise.
pub proof fn law_gpus_and_jobs_are_counted(gpus: Vec<i16>, jobs: u8)
    ensures
        gpu_count(Some(gpus)) == Some(gpus@.len()),
        gpu_count(None) is None,
        jobs_per_gpu(None) == 1,
        jobs_per_gpu(Some(jobs)) == jobs,
{
}

/// On the CPU there is always a pool. Threads that do not fill one pool get one, and every further
/// pool size of threads adds one more.
pub proof fn law_each_pool_size_adds_a_pool(threads: nat, thread_pool_size: nat, jobs: nat)
    requires
        thread_pool_size > 0,
    ensures
        threads < thread_pool_size ==> pool_count(threads, thread_pool_size, None, jobs) == 1,
        pool_count(thread_pool_size, thread_pool_size, None, jobs) == 1,
        threads >= thread_pool_size ==> pool_count(
            threads + thread_pool_size,
            thread_pool_size,
            None,
            jobs,
        ) == pool_count(threads, thread_pool_size, None, jobs) + 1,
{
    let size = thread_pool_size as int;
    vstd::arithmetic::div_mod::lemma_div_plus_one(threads as int, size);
    vstd::arithmetic::div_mod::lemma_div_by_self(size);
    assert(size + threads == threads + size);
}

/// What happens to a prover touches one thing each, and nothing else: a target the proof target,
/// newer work the epoch, a share the count of its side, and an attempt the count of attempts.
pub proof fn law_each_happening_has_one_effect(
    state: ProverState,
    target: u64,
    epoch: u32,
    solved: bool,
)
    ensures
        ({
            let after = step(state, Happening::Target(target));
            &&& after.current_proof_target == target
            &&& after.current_epoch == state.current_epoch
            &&& after.total_proofs == state.total_proofs
            &&& after.valid_shares == state.valid_shares
            &&& after.invalid_shares == state.invalid_shares
        }),
        ({
            let after = step(state, Happening::Work(epoch));
            &&& after.current_epoch >= epoch && after.current_epoch >= state.current_epoch
            &&& after.current_epoch == epoch || after.current_epoch == state.current_epoch
            &&& after.current_proof_target == state.current_proof_target
            &&& after.total_proofs == state.total_proofs
            &&& after.valid_shares == state.valid_shares
            &&& after.invalid_shares == state.invalid_shares
        }),
        ({
            let after = step(state, Happening::Share(true));
            &&& (after.valid_shares - state.valid_shares - 1) % 0x1_0000_0000 == 0
            &&& after.invalid_shares == state.invalid_shares
            &&& after.current_epoch == state.current_epoch
            &&& after.current_proof_target == state.current_proof_target
            &&& after.total_proofs == state.total_proofs
        }),
        ({
            let after = step(state, Happening::Share(false));
            &&& (after.invalid_shares - state.invalid_shares - 1) % 0x1_0000_0000 == 0
            &&& after.valid_shares == state.valid_shares
            &&& after.current_epoch == state.current_epoch
            &&& after.current_proof_target == state.current_proof_target
            &&& after.total_proofs == state.total_proofs
        }),
        ({
            let after = step(state, Happening::Attempt(epoch, solved));
            &&& if solved && epoch != state.current_epoch {
                after.total_proofs == state.total_proofs
            } else {
                (after.total_proofs - state.total_proofs - 1) % 0x1_0000_0000 == 0
            }
            &&& after.current_epoch == state.current_epoch
            &&& after.current_proof_target == state.current_proof_target
            &&& after.valid_shares == state.valid_shares
            &&& after.invalid_shares == state.invalid_shares
        }),
{
}

/// The sum of two counters is that of their numbers, as far as thirty-two bits go.
pub proof fn law_counters_add_up(a: u32, b: u32)
    ensures
        (a + b - count_sum(a, b)) % 0x1_0000_0000 == 0,
{
}

/// The state of a prover is what it holds, and an event is to it what its kind says.
pub proof fn law_state_and_events_are_plain<C>(
    prover: Prover,
    target: u64,
    epoch: u32,
    challenge: C,
    address: String,
    success: bool,
    message: Option<String>,
)
    ensures
        prover.state().current_epoch == prover.current_epoch,
        prover.state().current_proof_target == prover.current_proof_target,
        prover.state().total_proofs == prover.total_proofs,
        prover.state().valid_shares == prover.valid_shares,
        prover.state().invalid_shares == prover.invalid_shares,
        ProverEvent::<C>::NewTarget(target).happening() == Happening::Target(target),
        ProverEvent::NewWork(epoch, challenge, address).happening() == Happening::Work(epoch),
        ProverEvent::<C>::ShareResult(success, message).happening() == Happening::Share(success),
{
}

/// A history is lived through one happening at a time.
pub proof fn law_history_is_stepwise(state: ProverState, history: Seq<Happening>, next: Happening)
    ensures
        run(state, seq![]) == state,
        run(state, history.push(next)) == step(run(state, history), next),
{
    assert(history.push(next).drop_last() =~= history);
}

/// The difficulty of a solution is asked for exactly when there is one and its work is current.
pub proof fn law_difficulty_is_asked_for_current_solutions(
    prover: Prover,
    epoch_number: u32,
    solution: Option<Solution>,
)
    ensures
        prover.asks_difficulty(epoch_number, solution) <==> epoch_number == prover.current_epoch
            && solution is Some,
{
}

/// The first dash of a decimal followed by a dash stands right behind the decimal.
proof fn lemma_first_dash(n: nat, rest: Seq<char>, i: int)
    requires
        0 <= i <= crate::text::decimal(n).len(),
    ensures
        (crate::text::decimal(n) + "-"@ + rest)[i] == '-' <==> i == crate::text::decimal(n).len(),
{
    reveal_strlit("-");
    crate::text::lemma_decimal_digits(n);
    if i < crate::text::decimal(n).len() {
        assert('0' <= crate::text::decimal(n)[i] <= '9');
        assert((crate::text::decimal(n) + "-"@ + rest)[i] == crate::text::decimal(n)[i]);
    }
}

/// Threads of one prover have the same name only if they are the same thread of one pool.
pub proof fn law_thread_names_distinct(a: PoolSpec, i: nat, b: PoolSpec, j: nat)
    requires
        a.cuda == b.cuda,
        a.spec_thread_name(i) == b.spec_thread_name(j),
    ensures
        a.index == b.index,
        i == j,
{
    let kind = if a.cuda {
        "ap-cuda-"@
    } else {
        "ap-cpu-"@
    };
    let p = crate::text::decimal(a.index as nat);
    let q = crate::text::decimal(b.index as nat);
    let s = crate::text::decimal(i);
    let t = crate::text::decimal(j);
    let x = a.spec_thread_name(i).skip(kind.len() as int);
    assert(x =~= p + "-"@ + s);
    assert(x =~= q + "-"@ + t);
    reveal_strlit("-");
    if p.len() < q.len() {
        lemma_first_dash(a.index as nat, s, p.len() as int);
        lemma_first_dash(b.index as nat, t, p.len() as int);
    } else if q.len() < p.len() {
        lemma_first_dash(a.index as nat, s, q.len() as int);
        lemma_first_dash(b.index as nat, t, q.len() as int);
    }
    assert(p =~= x.take(p.len() as int));
    assert(q =~= x.take(p.len() as int));
    assert(s =~= x.skip(p.len() as int + 1));
    assert(t =~= x.skip(p.len() as int + 1));
    crate::text::law_decimal_injective(a.index as nat, b.index as nat);
    crate::text::law_decimal_injective(i, j);
}

/// Whatever happens, the prover is on the newest epoch that it had work for: never behind the
/// one it started from, never behind one in its history, and on none that was not offered.
pub proof fn law_epoch_is_newest(state: ProverState, history: Seq<Happening>)
    ensures
        run(state, history).current_epoch >= state.current_epoch,
        forall|i: int|
            0 <= i < history.len() ==> (#[trigger] history[i] matches Happening::Work(epoch) ==> run(
                state,
                history,
            ).current_epoch >= epoch),
        run(state, history).current_epoch == state.current_epoch || history.contains(
            Happening::Work(run(state, history).current_epoch),
        ),
    decreases history.len(),
{
    if history.len() > 0 {
        let before = history.drop_last();
        law_epoch_is_newest(state, before);
        let earlier = run(state, before);
        let later = run(state, history);
        assert forall|i: int| 0 <= i < history.len() implies (
        #[trigger] history[i] matches Happening::Work(epoch) ==> later.current_epoch >= epoch) by {
            if i < before.len() {
                assert(before[i] == history[i]);
            }
        }
        if later.current_epoch != earlier.current_epoch {
            assert(history[history.len() - 1] == Happening::Work(later.current_epoch));
        } else if later.current_epoch != state.current_epoch {
            let i = choose|i: int|
                0 <= i < before.len() && before[i] == Happening::Work(earlier.current_epoch);
            assert(history[i] == Happening::Work(later.current_epoch));
        }
    }
}

/// Once there is work for a newer epoch, a solution by a worker on an older one changes
/// nothing, whatever else happens in between.
pub proof fn law_stale_solution_is_dropped(
    state: ProverState,
    history: Seq<Happening>,
    i: int,
    epoch: u32,
    newer: u32,
)
    requires
        0 <= i < history.len(),
        history[i] == Happening::Work(newer),
        epoch < newer,
    ensures
        run(state, history.push(Happening::Attempt(epoch, true))) == run(state, history),
{
    law_epoch_is_newest(state, history);
    assert(run(state, history).current_epoch >= newer) by {
        assert(history[i] == Happening::Work(newer));
    }
    let longer = history.push(Happening::Attempt(epoch, true));
    assert(longer.drop_last() =~= history);
    assert(longer.last() == Happening::Attempt(epoch, true));
}

/// Once there was work for a newer epoch, a worker on an older one never gets another attempt.
pub proof fn law_stale_worker_stops(
    state: ProverState,
    history: Seq<Happening>,
    i: int,
    epoch: u32,
    newer: u32,
    nonce: u64,
)
    requires
        0 <= i < history.len(),
        history[i] == Happening::Work(newer),
        epoch < newer,
    ensures
        attempt_of(run(state, history), epoch, nonce) is None,
{
    law_epoch_is_newest(state, history);
    assert(history[i] matches Happening::Work(e) && run(state, history).current_epoch >= e);
}

/// A worker on the current epoch gets an attempt for the current proof target, whatever happens,
/// until there is work for a newer epoch.
pub proof fn law_current_worker_goes_on(state: ProverState, history: Seq<Happening>, nonce: u64)
    requires
        forall|i: int|
            0 <= i < history.len() ==> (#[trigger] history[i] matches Happening::Work(epoch)
                ==> epoch <= state.current_epoch),
    ensures
        attempt_of(run(state, history), state.current_epoch, nonce) == Some(
            Attempt { nonce, proof_target: run(state, history).current_proof_target },
        ),
{
    law_epoch_is_newest(state, history);
    if run(state, history).current_epoch != state.current_epoch {
        let i = choose|i: int|
            0 <= i < history.len() && history[i] == Happening::Work(
                run(state, history).current_epoch,
            );
        assert(history[i] == Happening::Work(run(state, history).current_epoch));
    }
}

/// The same work offered again is ignored.
pub proof fn law_repeated_work_is_ignored(state: ProverState, epoch: u32)
    ensures
        step(step(state, Happening::Work(epoch)), Happening::Work(epoch)) == step(
            state,
            Happening::Work(epoch),
        ),
{
}

/// A solution that is submitted has at least the difficulty that was asked for when its attempt
/// began, whatever the target is when it ends, and is for the address and the nonce of the attempt.
pub proof fn law_submission_meets_target(
    beginning: ProverState,
    epoch: u32,
    attempt: Attempt,
    address: Seq<char>,
    solution: Solution,
    action: WorkerAction,
)
    requires
        attempt_of(beginning, epoch, attempt.nonce) == Some(attempt),
        crate::puzzle::answers(solution, address, attempt.nonce, attempt.proof_target),
        crate::puzzle::sha256d(solution.commitment@) != 0,
        action == WorkerAction::Submit(
            solution,
            (u64::MAX / crate::puzzle::sha256d(solution.commitment@)) as u64,
        ),
    ensures
        action matches WorkerAction::Submit(submitted, difficulty) && difficulty
            >= beginning.current_proof_target && submitted.nonce == attempt.nonce && Some(
            submitted.address@,
        ) == crate::account::parsed_address(address),
{
}

/// What events are to the prover's counters and current work, in order.
pub open spec fn happenings<C>(events: Seq<ProverEvent<C>>) -> Seq<Happening> {
    events.map_values(|event: ProverEvent<C>| event.happening())
}

/// A prover that takes in events one by one, each in the state that the one before has left, ends
/// where their history leads.
pub proof fn law_events_make_history<C>(states: Seq<ProverState>, events: Seq<ProverEvent<C>>)
    requires
        states.len() == events.len() + 1,
        forall|i: int|
            0 <= i < events.len() ==> states[i + 1] == step(
                states[i],
                (#[trigger] events[i]).happening(),
            ),
    ensures
        states.last() == run(states[0], happenings(events)),
    decreases events.len(),
{
    if events.len() > 0 {
        let fewer = events.drop_last();
        let end = events.len() - 1;
        assert forall|i: int| 0 <= i < fewer.len() implies states.drop_last()[i + 1] == step(
            states.drop_last()[i],
            (#[trigger] fewer[i]).happening(),
        ) by {
            assert(fewer[i] == events[i]);
        }
        law_events_make_history(states.drop_last(), fewer);
        assert(happenings(events).drop_last() =~= happenings(fewer));
        assert(states[end + 1] == step(states[end], events[end].happening()));
    }
}

/// The number of accepted, or of rejected, shares in a history.
pub open spec fn shares(history: Seq<Happening>, accepted: bool) -> nat
    decreases history.len(),
{
    if history.len() == 0 {
        0
    } else {
        shares(history.drop_last(), accepted) + if history.last() == Happening::Share(accepted) {
            1nat
        } else {
            0nat
        }
    }
}

/// The number of attempts in a history.
pub open spec fn attempts(history: Seq<Happening>) -> nat
    decreases history.len(),
{
    if history.len() == 0 {
        0
    } else {
        attempts(history.drop_last()) + if history.last() is Attempt {
            1nat
        } else {
            0nat
        }
    }
}

/// Whether entry `i` of a history is no solution for work that was stale by then.
pub open spec fn attempt_is_current(state: ProverState, history: Seq<Happening>, i: int) -> bool {
    history[i] matches Happening::Attempt(epoch, true) ==> epoch == run(
        state,
        history.take(i),
    ).current_epoch
}

/// Whether a history holds no solution for work that was stale by then.
pub open spec fn no_stale_solution(state: ProverState, history: Seq<Happening>) -> bool {
    forall|i: int| 0 <= i < history.len() ==> attempt_is_current(state, history, i)
}

/// Every share result is counted once and on its own side, as long as the counters do not
/// start again from zero.
pub proof fn law_shares_are_counted(state: ProverState, history: Seq<Happening>)
    requires
        state.valid_shares + shares(history, true) <= u32::MAX,
        state.invalid_shares + shares(history, false) <= u32::MAX,
    ensures
        run(state, history).valid_shares == state.valid_shares + shares(history, true),
        run(state, history).invalid_shares == state.invalid_shares + shares(history, false),
    decreases history.len(),
{
    if history.len() > 0 {
        law_shares_are_counted(state, history.drop_last());
    }
}

/// No attempt is counted twice, and without solutions for stale work each one is counted, as
/// long as the counter does not start again from zero.
pub proof fn law_attempts_are_counted(state: ProverState, history: Seq<Happening>)
    requires
        state.total_proofs + attempts(history) <= u32::MAX,
    ensures
        state.total_proofs <= run(state, history).total_proofs <= state.total_proofs + attempts(
            history,
        ),
        no_stale_solution(state, history) ==> run(state, history).total_proofs
            == state.total_proofs + attempts(history),
    decreases history.len(),
{
    if history.len() > 0 {
        let before = history.drop_last();
        law_attempts_are_counted(state, before);
        if no_stale_solution(state, history) {
            assert forall|i: int| 0 <= i < before.len() implies attempt_is_current(
                state,
                before,
                i,
            ) by {
                assert(attempt_is_current(state, history, i));
                assert(before.take(i) =~= history.take(i));
            }
            assert(attempt_is_current(state, history, history.len() - 1));
            assert(history.take(history.len() - 1) =~= before);
        }
    }
}

/// The proof target is the one that arrived last.
pub proof fn law_target_is_latest(state: ProverState, history: Seq<Happening>, i: int, target: u64)
    requires
        0 <= i < history.len(),
        history[i] == Happening::Target(target),
        forall|j: int| i < j < history.len() ==> !(#[trigger] history[j] is Target),
    ensures
        run(state, history).current_proof_target == target,
    decreases history.len(),
{
    if i < history.len() - 1 {
        let before = history.drop_last();
        assert(!(history[history.len() - 1] is Target));
        assert forall|j: int| i < j < before.len() implies !(#[trigger] before[j] is Target) by {
            assert(!(history[j] is Target));
        }
        law_target_is_latest(state, before, i, target);
    }
}

/// Without a new proof target the proof target stays.
pub proof fn law_target_stays(state: ProverState, history: Seq<Happening>)
    requires
        forall|i: int| 0 <= i < history.len() ==> !(#[trigger] history[i] is Target),
    ensures
        run(state, history).current_proof_target == state.current_proof_target,
    decreases history.len(),
{
    if history.len() > 0 {
        let before = history.drop_last();
        assert(!(history[history.len() - 1] is Target));
        assert forall|i: int| 0 <= i < before.len() implies !(#[trigger] before[i] is Target) by {
            assert(!(history[i] is Target));
        }
        law_target_stays(state, before);
    }
}

} // verus!
