use aleo_prover::account::parse_address;
use aleo_prover::options::{
    start_mine_for, try_start_mine, Launch, LaunchError, MiningPlan, ProverOptions, ProverPlan,
    Refusal, Startup,
};
use aleo_prover::{start_mine, Opt};

const PRIVATE_KEY: &str = "APrivateKey1zkp8cC4jgHEBnbtu3xxs1Ndja2EMizcvTRDq5Nikdkukg1p";
const ADDRESS: &str = "aleo1wvgwnqvy46qq0zemj0k6sfp3zv0mp77rw97khvwuhac05yuwscxqmfyhwf";
const DEFAULT_ADDRESS: &str = "aleo1j9tthvexfs2232247jc8wencgslsnydhyx3vvr7vv7mruqeptgpq4ektaj";

fn plan(startup: Startup) -> MiningPlan {
    match startup {
        Startup::Mine(plan) => plan,
        _ => panic!("no plan"),
    }
}

fn pooled() -> Opt {
    Opt { pool: Some("pool:1".to_string()), ..Opt::default() }
}

fn options() -> ProverOptions {
    ProverOptions {
        debug: false,
        private_key: Some(PRIVATE_KEY.to_string()),
        beacon: None,
        threads: None,
        thread_pool_size: None,
        log: None,
        new_address: false,
        cuda: None,
        jobs: None,
    }
}

fn prove(launch: Launch) -> ProverPlan {
    match launch {
        Launch::Prove(plan) => plan,
        _ => panic!("no plan"),
    }
}

fn refusal(launch: Launch) -> LaunchError {
    match launch {
        Launch::Refuse(error) => error,
        _ => panic!("not refused"),
    }
}

#[test]
fn default_options() {
    let opt = Opt::default();
    assert_eq!(opt.address.as_deref(), Some(DEFAULT_ADDRESS));
    assert!(!opt.debug && !opt.new_address);
    assert!(opt.pool.is_none() && opt.threads.is_none() && opt.log.is_none());
    assert!(opt.cuda.is_none() && opt.jobs.is_none());
    assert_eq!(parse_address(DEFAULT_ADDRESS).as_deref(), Some(DEFAULT_ADDRESS));
}

#[test]
fn new_address_counts_first() {
    let opt = Opt { new_address: true, address: None, ..Opt::default() };
    assert!(matches!(opt.start_mine(false, 1), Startup::NewAddress));
}

#[test]
fn pool_is_required() {
    assert!(matches!(
        Opt::default().start_mine(true, 1),
        Startup::Refuse(Refusal::PoolMissing)
    ));
    let opt = Opt { address: None, ..Opt::default() };
    assert!(matches!(opt.start_mine(true, 1), Startup::Refuse(Refusal::PoolMissing)));
}

#[test]
fn address_is_required() {
    let opt = Opt { address: None, ..pooled() };
    assert!(matches!(opt.start_mine(false, 1), Startup::Refuse(Refusal::AddressMissing)));
}

#[test]
fn pool_must_resolve() {
    let opt = Opt { cuda: Some(vec![]), ..pooled() };
    assert!(matches!(opt.start_mine(false, 1), Startup::Refuse(Refusal::PoolInvalid)));
}

#[test]
fn gpus_must_be_named() {
    let opt = Opt { cuda: Some(vec![]), ..pooled() };
    assert!(matches!(opt.start_mine(true, 1), Startup::Refuse(Refusal::NoGpus)));
}

#[test]
fn mining_plan() {
    let opt = Opt { threads: Some(3), cuda: Some(vec![1]), jobs: Some(2), ..pooled() };
    let plan = plan(opt.start_mine(true, 16));
    assert_eq!(plan.address, DEFAULT_ADDRESS);
    assert_eq!(plan.pool, "pool:1");
    assert_eq!(plan.threads, 3);
    assert_eq!(plan.cuda, Some(vec![1]));
    assert_eq!(plan.cuda_jobs, Some(2));
}

#[test]
fn threads_default_to_cpus() {
    assert_eq!(plan(pooled().start_mine(true, 16)).threads, 16);
    assert_eq!(plan(pooled().start_mine(true, 65535)).threads, 65535);
    assert_eq!(plan(pooled().start_mine(true, 65536 + 5)).threads, 5);
}

#[test]
fn start_mine_with_address() {
    let plan = plan(start_mine(ADDRESS.to_string(), "pool:2".to_string(), true, 8));
    assert_eq!(plan.address, ADDRESS);
    assert_eq!(plan.pool, "pool:2");
    assert_eq!(plan.threads, 8);
    assert!(plan.cuda.is_none() && plan.cuda_jobs.is_none());
    assert!(matches!(
        start_mine(ADDRESS.to_string(), "pool:2".to_string(), false, 8),
        Startup::Refuse(Refusal::PoolInvalid)
    ));
    assert!(matches!(
        start_mine_for(ADDRESS.to_string(), "pool:2".to_string(), true, 8),
        Startup::Mine(_)
    ));
}

#[test]
fn start_mine_needs_an_address() {
    assert!(try_start_mine("aleo1".to_string(), "pool:2".to_string(), true, 8).is_none());
    assert!(try_start_mine(ADDRESS.to_string(), "pool:2".to_string(), true, 8).is_some());
}

#[test]
fn beacons_to_talk_to() {
    let beacons = options().beacons();
    assert_eq!(beacons.len(), 10);
    assert_eq!(beacons[0], "164.92.111.59:4133");
    assert_eq!(beacons[9], "138.197.190.94:4133");
    let named = ProverOptions { beacon: Some("host:1".to_string()), ..options() };
    assert_eq!(named.beacons(), vec!["host:1"]);
}

#[test]
fn launch_new_address() {
    let options = ProverOptions { new_address: true, private_key: None, ..options() };
    assert!(matches!(options.launch(None, false, 1), Launch::NewAddress));
}

#[test]
fn launch_plan() {
    let plan = prove(options().launch(None, true, 12));
    assert_eq!(plan.account.private_key, PRIVATE_KEY);
    assert_eq!(plan.account.address, ADDRESS);
    assert_eq!(plan.beacons.len(), 10);
    assert_eq!((plan.threads, plan.thread_pool_size), (12, 4));
    assert!(plan.cuda.is_none() && plan.cuda_jobs.is_none());
    let options = ProverOptions {
        threads: Some(2),
        thread_pool_size: Some(1),
        cuda: Some(vec![0, 1]),
        jobs: Some(4),
        ..options()
    };
    let plan = prove(options.launch(None, true, 12));
    assert_eq!((plan.threads, plan.thread_pool_size), (2, 1));
    assert_eq!(plan.cuda, Some(vec![0, 1]));
    assert_eq!(plan.cuda_jobs, Some(4));
}

#[test]
fn key_from_the_environment() {
    let without = ProverOptions { private_key: None, ..options() };
    let plan = prove(without.launch(Some(PRIVATE_KEY.to_string()), true, 1));
    assert_eq!(plan.account.address, ADDRESS);
    let plan = prove(options().launch(Some("nonsense".to_string()), true, 1));
    assert_eq!(plan.account.address, ADDRESS);
}

#[test]
fn launch_refusals() {
    let without = || ProverOptions { private_key: None, cuda: Some(vec![]), ..options() };
    let nonsense = Some("nonsense".to_string());
    assert_eq!(refusal(without().launch(None, false, 1)), LaunchError::PrivateKeyMissing);
    assert_eq!(refusal(without().launch(nonsense, false, 1)), LaunchError::PrivateKeyInvalid);
    let with = || ProverOptions { cuda: Some(vec![]), ..options() };
    assert_eq!(refusal(with().launch(None, false, 1)), LaunchError::BeaconInvalid);
    assert_eq!(refusal(with().launch(None, true, 1)), LaunchError::NoGpus);
}

#[test]
fn exit_codes() {
    assert_eq!(LaunchError::PrivateKeyInvalid.exit_code(), 0);
    for error in [
        LaunchError::PrivateKeyMissing,
        LaunchError::BeaconInvalid,
        LaunchError::NoGpus,
        LaunchError::NoAccount,
    ] {
        assert_eq!(error.exit_code(), 1);
    }
}
