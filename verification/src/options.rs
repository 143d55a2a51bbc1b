//! What the user asked for, and what follows from it before any proving starts.

use vstd::prelude::*;
use vstd::string::*;

use crate::account::{parse_address, Account, AccountError};

verus! {

/// The number of threads in each thread pool, unless the user says otherwise.
pub const DEFAULT_THREAD_POOL_SIZE: u8 = 4;

/// The number of prover threads on a machine with `cpus` CPU threads: as many as the user asks
/// for, else one for each CPU thread, counted in sixteen bits.
pub open spec fn thread_count(threads: Option<u16>, cpus: usize) -> nat {
    match threads {
        Some(threads) => threads as nat,
        None => cpus as nat % 0x1_0000,
    }
}

/// Whether GPUs were asked for without naming one.
pub open spec fn names_no_gpu(cuda: Option<Vec<i16>>) -> bool {
    cuda matches Some(gpus) && gpus@.len() == 0
}

/// The characters of each text in a list.
pub open spec fn texts(list: Seq<String>) -> Seq<Seq<char>> {
    list.map_values(|text: String| text@)
}

/// The number of prover threads on a machine with `cpus` CPU threads.
fn choose_threads(threads: Option<u16>, cpus: usize) -> (count: u16)
    ensures
        count as nat == thread_count(threads, cpus),
{
    match threads {
        Some(threads) => threads,
        None => (cpus % 0x1_0000) as u16,
    }
}

/// Whether GPUs were asked for without naming one.
fn lacks_gpu(cuda: &Option<Vec<i16>>) -> (lacks: bool)
    ensures
        lacks <==> names_no_gpu(*cuda),
{
    match cuda {
        Some(gpus) => gpus.len() == 0,
        None => false,
    }
}

/// Options of a prover that works for a mining pool.
pub struct Opt {
    /// Enable debug logging.
    pub debug: bool,
    /// Prover address.
    pub address: Option<String>,
    /// Pool server address.
    pub pool: Option<String>,
    /// Number of threads.
    pub threads: Option<u16>,
    /// Output log to file.
    pub log: Option<String>,
    /// Generate a new address.
    pub new_address: bool,
    /// Indexes of GPUs to use, which start from 0.
    pub cuda: Option<Vec<i16>>,
    /// Parallel jobs per GPU.
    pub jobs: Option<u8>,
}

/// Why a prover does not start for a pool.
#[derive(Clone, Copy, Debug, PartialEq, Eq, Structural)]
pub enum Refusal {
    /// A pool address is required.
    PoolMissing,
    /// A prover address is required.
    AddressMissing,
    /// The pool address is none that can be resolved.
    PoolInvalid,
    /// No GPU was named.
    NoGpus,
}

/// How a prover works for a pool.
pub struct MiningPlan {
    pub address: String,
    pub pool: String,
    pub threads: u16,
    pub cuda: Option<Vec<i16>>,
    pub cuda_jobs: Option<u8>,
}

/// What the options of a pool prover lead to.
pub enum Startup {
    /// Make a new account and show it.
    NewAddress,
    /// Stop with an error.
    Refuse(Refusal),
    /// Work for the pool.
    Mine(MiningPlan),
}

impl Default for Opt {
    /// Nothing but an address to prove for.
    fn default() -> (opt: Opt)
        ensures
            !opt.debug,
            opt.address matches Some(address) && address@
                == "aleo1j9tthvexfs2232247jc8wencgslsnydhyx3vvr7vv7mruqeptgpq4ektaj"@,
            opt.pool is None,
            opt.threads is None,
            opt.log is None,
            !opt.new_address,
            opt.cuda is None,
            opt.jobs is None,
    {
        Opt {
            debug: false,
            address: Some(
                "aleo1j9tthvexfs2232247jc8wencgslsnydhyx3vvr7vv7mruqeptgpq4ektaj".to_string(),
            ),
            pool: None,
            threads: None,
            log: None,
            new_address: false,
            cuda: None,
            jobs: None,
        }
    }
}

impl Opt {
    /// Why the options are refused, if they are, given whether the pool address can be resolved.
    /// The first reason in this order counts.
    pub open spec fn refusal(self, pool_resolves: bool) -> Option<Refusal> {
        if self.pool is None {
            Some(Refusal::PoolMissing)
        } else if self.address is None {
            Some(Refusal::AddressMissing)
        } else if !pool_resolves {
            Some(Refusal::PoolInvalid)
        } else if names_no_gpu(self.cuda) {
            Some(Refusal::NoGpus)
        } else {
            None
        }
    }

    /// What the options lead to on a machine with `cpus` CPU threads, given whether the pool
    /// address can be resolved.
    pub fn start_mine(self, pool_resolves: bool, cpus: usize) -> (startup: Startup)
        ensures
            self.new_address <==> startup is NewAddress,
            !self.new_address ==> match self.refusal(pool_resolves) {
                Some(refusal) => startup == Startup::Refuse(refusal),
                None => startup matches Startup::Mine(plan) && Some(plan.address) == self.address
                    && Some(plan.pool) == self.pool && plan.threads as nat == thread_count(
                    self.threads,
                    cpus,
                ) && plan.cuda == self.cuda && plan.cuda_jobs == self.jobs,
            },
            !self.new_address && self.pool is None ==> startup == Startup::Refuse(
                Refusal::PoolMissing,
            ),
            !self.new_address && self.pool is Some && self.address is None ==> startup
                == Startup::Refuse(Refusal::AddressMissing),
            !self.new_address && self.pool is Some && self.address is Some && !pool_resolves
                ==> startup == Startup::Refuse(Refusal::PoolInvalid),
            !self.new_address && self.pool is Some && self.address is Some && pool_resolves ==> if (
            self.cuda matches Some(gpus) && gpus@.len() == 0) {
                startup == Startup::Refuse(Refusal::NoGpus)
            } else {
                &&& startup matches Startup::Mine(plan)
                &&& Some(plan.address) == self.address
                &&& Some(plan.pool) == self.pool
                &&& self.threads matches Some(n) ==> plan.threads == n
                &&& self.threads is None ==> plan.threads == cpus % 0x1_0000
                &&& plan.cuda == self.cuda
                &&& plan.cuda_jobs == self.jobs
            },
    {
        if self.new_address {
            return Startup::NewAddress;
        }
        let pool: String = match self.pool {
            None => return Startup::Refuse(Refusal::PoolMissing),
            Some(pool) => pool,
        };
        let address: String = match self.address {
            None => return Startup::Refuse(Refusal::AddressMissing),
            Some(address) => address,
        };
        if !pool_resolves {
            return Startup::Refuse(Refusal::PoolInvalid);
        }
        if lacks_gpu(&self.cuda) {
            return Startup::Refuse(Refusal::NoGpus);
        }
        Startup::Mine(
            MiningPlan {
                address,
                pool,
                threads: choose_threads(self.threads, cpus),
                cuda: self.cuda,
                cuda_jobs: self.jobs,
            },
        )
    }
}

/// Whether `startup` is that of a prover which works for `address` at `pool` and has every
/// other option unset.
pub open spec fn mines_by_default(
    startup: Startup,
    address: Seq<char>,
    pool: String,
    pool_resolves: bool,
    cpus: usize,
) -> bool {
    if pool_resolves {
        &&& startup matches Startup::Mine(plan)
        &&& plan.address@ == address
        &&& plan.pool == pool
        &&& plan.threads as nat == thread_count(None, cpus)
        &&& plan.cuda is None
        &&& plan.cuda_jobs is None
    } else {
        startup == Startup::Refuse(Refusal::PoolInvalid)
    }
}

/// Starts a prover for `address` at `pool`.
pub fn start_mine(address: String, pool: String, pool_resolves: bool, cpus: usize) -> (startup:
    Startup)
    requires
        crate::account::parsed_address(address@) is Some,
    ensures
        mines_by_default(
            startup,
            crate::account::parsed_address(address@)->0,
            pool,
            pool_resolves,
            cpus,
        ),
        pool_resolves ==> (startup matches Startup::Mine(plan) && plan.address@ == crate::account::parsed_address(address@)->0 && plan.pool
            == pool && plan.threads == cpus % 0x1_0000 && plan.cuda is None && plan.cuda_jobs is None),
        !pool_resolves ==> startup == Startup::Refuse(Refusal::PoolInvalid),
{
    start_mine_for(parse_address(address.as_str()).unwrap(), pool, pool_resolves, cpus)
}

/// Starts a prover for an address that was read already.
pub fn start_mine_for(
    address: String,
    pool: String,
    pool_resolves: bool,
    cpus: usize,
) -> (startup: Startup)
    ensures
        mines_by_default(startup, address@, pool, pool_resolves, cpus),
        pool_resolves ==> (startup matches Startup::Mine(plan) && plan.address@ == address@ && plan.pool
            == pool && plan.threads == cpus % 0x1_0000 && plan.cuda is None && plan.cuda_jobs is None),
        !pool_resolves ==> startup == Startup::Refuse(Refusal::PoolInvalid),
{
    let mut opt: Opt = Opt::default();
    opt.address = Some(address);
    opt.pool = Some(pool);
    opt.start_mine(pool_resolves, cpus)
}

/// Starts a prover for `address` at `pool`, unless the text is no address.
pub fn try_start_mine(
    address: String,
    pool: String,
    pool_resolves: bool,
    cpus: usize,
) -> (startup: Option<Startup>)
    ensures
        startup is None <==> crate::account::parsed_address(address@) is None,
        startup matches Some(startup) ==> mines_by_default(
            startup,
            crate::account::parsed_address(address@)->0,
            pool,
            pool_resolves,
            cpus,
        ),
        startup matches Some(startup) ==> if pool_resolves {
            &&& startup matches Startup::Mine(plan)
            &&& Some(plan.address@) == crate::account::parsed_address(address@)
            &&& plan.pool == pool
            &&& plan.threads == cpus % 0x1_0000
            &&& plan.cuda is None
            &&& plan.cuda_jobs is None
        } else {
            startup == Startup::Refuse(Refusal::PoolInvalid)
        },
{
    if parse_address(address.as_str()).is_none() {
        return None;
    }
    Some(start_mine(address, pool, pool_resolves, cpus))
}

/// Options of a prover that works for a beacon.
pub struct ProverOptions {
    /// Enable debug logging.
    pub debug: bool,
    /// Prover private key.
    pub private_key: Option<String>,
    /// Beacon node address.
    pub beacon: Option<String>,
    /// Number of threads.
    pub threads: Option<u16>,
    /// Number of threads in each thread pool.
    pub thread_pool_size: Option<u8>,
    /// Output log to file.
    pub log: Option<String>,
    /// Generate a new address.
    pub new_address: bool,
    /// Indexes of GPUs to use, which start from 0.
    pub cuda: Option<Vec<i16>>,
    /// Parallel jobs per GPU.
    pub jobs: Option<u8>,
}

/// Why a prover does not start for a beacon.
#[derive(Clone, Copy, Debug, PartialEq, Eq, Structural)]
pub enum LaunchError {
    /// A private key is required.
    PrivateKeyMissing,
    /// The private key cannot be read.
    PrivateKeyInvalid,
    /// The address of a beacon is none that can be resolved.
    BeaconInvalid,
    /// No GPU was named.
    NoGpus,
    /// The private key has no account. That never happens.
    NoAccount,
}

/// How a prover works for a beacon.
pub struct ProverPlan {
    pub account: Account,
    pub beacons: Vec<String>,
    pub threads: u16,
    pub thread_pool_size: u8,
    pub cuda: Option<Vec<i16>>,
    pub cuda_jobs: Option<u8>,
}

/// What the options of a beacon prover lead to.
pub enum Launch {
    /// Make a new account and show it.
    NewAddress,
    /// Stop with an error.
    Refuse(LaunchError),
    /// Work for a beacon.
    Prove(ProverPlan),
}

/// The beacons of the network.
pub open spec fn public_beacons() -> Seq<Seq<char>> {
    seq![
        "164.92.111.59:4133"@,
        "159.223.204.96:4133"@,
        "167.71.219.176:4133"@,
        "157.245.205.209:4133"@,
        "134.122.95.106:4133"@,
        "161.35.24.55:4133"@,
        "138.68.103.139:4133"@,
        "207.154.215.49:4133"@,
        "46.101.114.158:4133"@,
        "138.197.190.94:4133"@,
    ]
}

impl LaunchError {
    /// The exit code of the program. A key that cannot be read ends it without a failure.
    pub fn exit_code(&self) -> (code: i32)
        ensures
            code == if *self == LaunchError::PrivateKeyInvalid {
                0
            } else {
                1int
            },
    {
        match self {
            LaunchError::PrivateKeyInvalid => 0,
            _ => 1,
        }
    }
}

impl ProverOptions {
    /// The beacons that the prover may talk to: the one that the user names, else the public
    /// ones.
    pub open spec fn spec_beacons(self) -> Seq<Seq<char>> {
        match self.beacon {
            Some(beacon) => seq![beacon@],
            None => public_beacons(),
        }
    }

    /// The text of the private key: the option counts before the environment.
    pub open spec fn key_text(self, environment: Option<String>) -> Option<Seq<char>> {
        match self.private_key {
            Some(key) => Some(key@),
            None => crate::account::text_of(environment),
        }
    }

    /// Why the options are refused, if they are, given the private key in the environment and
    /// whether all beacons can be resolved. The first reason in this order counts. The last one never
    /// arises, because every private key has an account.
    pub open spec fn refusal(self, environment: Option<String>, beacons_resolve: bool) -> Option<
        LaunchError,
    > {
        match self.key_text(environment) {
            None => Some(LaunchError::PrivateKeyMissing),
            Some(text) => match crate::account::parsed_private_key(text) {
                None => Some(LaunchError::PrivateKeyInvalid),
                Some(key) => if !beacons_resolve {
                    Some(LaunchError::BeaconInvalid)
                } else if names_no_gpu(self.cuda) {
                    Some(LaunchError::NoGpus)
                } else if crate::account::address_of_key(key) is None {
                    Some(LaunchError::NoAccount)
                } else {
                    None
                },
            },
        }
    }

    /// The beacons that the prover may talk to.
    pub fn beacons(&self) -> (beacons: Vec<String>)
        ensures
            texts(beacons@) == self.spec_beacons(),
            self.beacon matches Some(beacon) ==> beacons@.len() == 1 && beacons@[0]@ == beacon@,
            self.beacon is None ==> {
                &&& beacons@.len() == 10
                &&& beacons@[0]@ == "164.92.111.59:4133"@
                &&& beacons@[1]@ == "159.223.204.96:4133"@
                &&& beacons@[2]@ == "167.71.219.176:4133"@
                &&& beacons@[3]@ == "157.245.205.209:4133"@
                &&& beacons@[4]@ == "134.122.95.106:4133"@
                &&& beacons@[5]@ == "161.35.24.55:4133"@
                &&& beacons@[6]@ == "138.68.103.139:4133"@
                &&& beacons@[7]@ == "207.154.215.49:4133"@
                &&& beacons@[8]@ == "46.101.114.158:4133"@
                &&& beacons@[9]@ == "138.197.190.94:4133"@
            },
    {
        let mut beacons: Vec<String> = Vec::new();
        match &self.beacon {
            Some(beacon) => {
                beacons.push(beacon.clone());
            },
            None => {
                beacons.push("164.92.111.59:4133".to_string());
                beacons.push("159.223.204.96:4133".to_string());
                beacons.push("167.71.219.176:4133".to_string());
                beacons.push("157.245.205.209:4133".to_string());
                beacons.push("134.122.95.106:4133".to_string());
                beacons.push("161.35.24.55:4133".to_string());
                beacons.push("138.68.103.139:4133".to_string());
                beacons.push("207.154.215.49:4133".to_string());
                beacons.push("46.101.114.158:4133".to_string());
                beacons.push("138.197.190.94:4133".to_string());
            },
        }
        proof {
            assert(texts(beacons@) =~= self.spec_beacons());
        }
        beacons
    }

    /// What the options lead to on a machine with `cpus` CPU threads, given the private key in
    /// the environment and whether all beacons can be resolved.
    pub fn launch(
        self,
        environment: Option<String>,
        beacons_resolve: bool,
        cpus: usize,
    ) -> (launch: Launch)
        ensures
            self.new_address <==> launch is NewAddress,
            launch != Launch::Refuse(LaunchError::NoAccount),
            !self.new_address ==> match self.refusal(environment, beacons_resolve) {
                Some(error) => launch == Launch::Refuse(error),
                None => {
                    &&& launch matches Launch::Prove(plan)
                    &&& plan.account.wf()
                    &&& Some(plan.account.private_key@) == crate::account::parsed_private_key(
                        self.key_text(environment)->0,
                    )
                    &&& texts(plan.beacons@) == self.spec_beacons()
                    &&& plan.threads as nat == thread_count(self.threads, cpus)
                    &&& plan.thread_pool_size == match self.thread_pool_size {
                        Some(size) => size,
                        None => DEFAULT_THREAD_POOL_SIZE,
                    }
                    &&& plan.cuda == self.cuda
                    &&& plan.cuda_jobs == self.jobs
                },
            },
            !self.new_address && self.private_key is None && environment is None ==> launch
                == Launch::Refuse(LaunchError::PrivateKeyMissing),
            !self.new_address ==> {
                let key = match self.private_key {
                    Some(key) => key@,
                    None => environment->0@,
                };
                let given = self.private_key is Some || environment is Some;
                let readable = given && crate::account::parsed_private_key(key) is Some;
                let unnamed = self.cuda matches Some(gpus) && gpus@.len() == 0;
                &&& given && !readable <==> launch == Launch::Refuse(LaunchError::PrivateKeyInvalid)
                &&& readable && !beacons_resolve <==> launch == Launch::Refuse(
                    LaunchError::BeaconInvalid,
                )
                &&& readable && beacons_resolve && unnamed <==> launch == Launch::Refuse(
                    LaunchError::NoGpus,
                )
                &&& readable && beacons_resolve && !unnamed <==> launch is Prove
            },
            launch matches Launch::Prove(plan) ==> {
                &&& self.threads matches Some(n) ==> plan.threads == n
                &&& self.threads is None ==> plan.threads == cpus % 0x1_0000
                &&& self.thread_pool_size matches Some(n) ==> plan.thread_pool_size == n
                &&& self.thread_pool_size is None ==> plan.thread_pool_size == 4
                &&& plan.cuda == self.cuda
                &&& plan.cuda_jobs == self.jobs
                &&& self.beacon matches Some(beacon) ==> texts(plan.beacons@) == seq![beacon@]
                &&& self.beacon is None ==> texts(plan.beacons@) == public_beacons()
                &&& self.private_key matches Some(key) ==> crate::account::parsed_private_key(key@)
                    == Some(plan.account.private_key@)
                &&& self.private_key is None ==> (environment matches Some(key)
                    && crate::account::parsed_private_key(key@) == Some(plan.account.private_key@))
                &&& crate::account::derived_view_key(plan.account.private_key@) == Some(
                    plan.account.view_key@,
                )
                &&& crate::account::derived_address(plan.account.view_key@) == Some(
                    plan.account.address@,
                )
            },
    {
        if self.new_address {
            return Launch::NewAddress;
        }
        let beacons: Vec<String> = self.beacons();
        let key: String = match self.private_key {
            Some(key) => key,
            None => match environment {
                Some(key) => key,
                None => return Launch::Refuse(LaunchError::PrivateKeyMissing),
            },
        };
        let account: Result<Account, AccountError> = Account::from_private_key(key.as_str());
        match &account {
            Err(AccountError::PrivateKey) => {
                return Launch::Refuse(LaunchError::PrivateKeyInvalid);
            },
            _ => {},
        }
        if !beacons_resolve {
            return Launch::Refuse(LaunchError::BeaconInvalid);
        }
        if lacks_gpu(&self.cuda) {
            return Launch::Refuse(LaunchError::NoGpus);
        }
        match account {
            Err(_) => Launch::Refuse(LaunchError::NoAccount),
            Ok(account) => Launch::Prove(
                ProverPlan {
                    account,
                    beacons,
                    threads: choose_threads(self.threads, cpus),
                    thread_pool_size: match self.thread_pool_size {
                        Some(size) => size,
                        None => DEFAULT_THREAD_POOL_SIZE,
                    },
                    cuda: self.cuda,
                    cuda_jobs: self.jobs,
                },
            ),
        }
    }
}

/// A prover that starts has a beacon to talk to: neither the public list nor a named beacon
/// leaves it without one.
pub proof fn law_some_beacon(options: ProverOptions)
    ensures
        options.spec_beacons().len() > 0,
{
}

/// If the user names a number of threads there are exactly as many, whatever the number of CPU
/// threads. If not, there is one for each CPU thread, as far as sixteen bits go.
pub proof fn law_named_threads_are_used(threads: u16, cpus: usize)
    ensures
        thread_count(Some(threads), cpus) == threads,
        cpus <= u16::MAX ==> thread_count(None, cpus) == cpus,
        (cpus - thread_count(None, cpus)) % 0x1_0000 == 0,
        thread_count(None, cpus) <= u16::MAX,
{
}

/// GPUs are missing exactly when they were asked for and none was named.
pub proof fn law_gpus_are_missing_only_if_asked_for(cuda: Option<Vec<i16>>)
    ensures
        cuda is None ==> !names_no_gpu(cuda),
        cuda matches Some(gpus) ==> (names_no_gpu(cuda) <==> gpus@ =~= Seq::<i16>::empty()),
{
}

/// A pool prover is refused for the first of these reasons that holds, and for nothing else: there is
/// no pool, there is no address, the pool cannot be resolved, no GPU was named.
pub proof fn law_pool_refusals(opt: Opt, pool_resolves: bool)
    ensures
        opt.refusal(pool_resolves) == Some(Refusal::PoolMissing) <==> opt.pool is None,
        opt.refusal(pool_resolves) == Some(Refusal::AddressMissing) <==> opt.pool is Some
            && opt.address is None,
        opt.refusal(pool_resolves) == Some(Refusal::PoolInvalid) <==> opt.pool is Some
            && opt.address is Some && !pool_resolves,
        opt.refusal(pool_resolves) == Some(Refusal::NoGpus) <==> opt.pool is Some
            && opt.address is Some && pool_resolves && (opt.cuda matches Some(gpus) && gpus@.len()
            == 0),
        opt.refusal(pool_resolves) is None <==> opt.pool is Some && opt.address is Some
            && pool_resolves && !(opt.cuda matches Some(gpus) && gpus@.len() == 0),
{
}

/// A beacon prover takes its private key from the command line, and from the environment only if
/// there is none on the command line.
pub proof fn law_command_line_key_counts_first(
    options: ProverOptions,
    environment: Option<String>,
)
    ensures
        options.private_key matches Some(key) ==> options.key_text(environment) == Some(key@),
        options.private_key is None ==> (environment matches Some(key) ==> options.key_text(
            environment,
        ) == Some(key@)),
        options.key_text(environment) is None <==> options.private_key is None
            && environment is None,
{
}

/// A beacon prover is refused for the first of these reasons that holds: there is no private key, the
/// key cannot be read, a beacon cannot be resolved, no GPU was named.
pub proof fn law_beacon_refusals(
    options: ProverOptions,
    environment: Option<String>,
    beacons_resolve: bool,
    key: Seq<char>,
)
    requires
        options.private_key matches Some(text) ==> text@ == key,
        options.private_key is None ==> (environment matches Some(text) ==> text@ == key),
    ensures
        ({
            let refusal = options.refusal(environment, beacons_resolve);
            let given = options.private_key is Some || environment is Some;
            let parsed = crate::account::parsed_private_key(key);
            let unnamed = options.cuda matches Some(gpus) && gpus@.len() == 0;
            &&& refusal == Some(LaunchError::PrivateKeyMissing) <==> !given
            &&& refusal == Some(LaunchError::PrivateKeyInvalid) <==> given && parsed is None
            &&& refusal == Some(LaunchError::BeaconInvalid) <==> given && parsed is Some
                && !beacons_resolve
            &&& refusal == Some(LaunchError::NoGpus) <==> given && parsed is Some
                && beacons_resolve && unnamed
            &&& given && parsed is Some && beacons_resolve && !unnamed
                && crate::account::address_of_key(parsed->0) is Some ==> refusal is None
        }),
{
}

/// A beacon that the user names is the only one, and without one there are ten, all on one port.
pub proof fn law_named_beacon_is_the_only_one(options: ProverOptions, i: int)
    ensures
        options.beacon matches Some(beacon) ==> options.spec_beacons() == seq![beacon@],
        options.beacon is None ==> options.spec_beacons() == public_beacons(),
        public_beacons().len() == 10,
        public_beacons()[0] == "164.92.111.59:4133"@,
        public_beacons()[1] == "159.223.204.96:4133"@,
        public_beacons()[2] == "167.71.219.176:4133"@,
        public_beacons()[3] == "157.245.205.209:4133"@,
        public_beacons()[4] == "134.122.95.106:4133"@,
        public_beacons()[5] == "161.35.24.55:4133"@,
        public_beacons()[6] == "138.68.103.139:4133"@,
        public_beacons()[7] == "207.154.215.49:4133"@,
        public_beacons()[8] == "46.101.114.158:4133"@,
        public_beacons()[9] == "138.197.190.94:4133"@,
        0 <= i < 10 ==> public_beacons()[i].skip(public_beacons()[i].len() - 5) == ":4133"@,
{
    reveal_strlit("164.92.111.59:4133");
    reveal_strlit("159.223.204.96:4133");
    reveal_strlit("167.71.219.176:4133");
    reveal_strlit("157.245.205.209:4133");
    reveal_strlit("134.122.95.106:4133");
    reveal_strlit("161.35.24.55:4133");
    reveal_strlit("138.68.103.139:4133");
    reveal_strlit("207.154.215.49:4133");
    reveal_strlit("46.101.114.158:4133");
    reveal_strlit("138.197.190.94:4133");
    reveal_strlit(":4133");
    if 0 <= i < 10 {
        assert(public_beacons()[i].skip(public_beacons()[i].len() - 5) =~= ":4133"@);
    }
}

/// The characters of a list of texts are those of each text, in order.
pub proof fn law_texts_have_their_characters(list: Seq<String>, i: int)
    ensures
        texts(list).len() == list.len(),
        0 <= i < list.len() ==> texts(list)[i] == list[i]@,
{
}

} // verus!
