use std::path::PathBuf;

use amax_node::executor::{ExecutorDispatch, HostFunctions};
use amax_node::service::action::{action, Action, SlotPortion, SpawnHandle};
use amax_node::service::components::{hands_over, made_in, Component};
use amax_node::service::config::{
    Configuration, DatabaseSource, PoolLimit, Role, TransactionPoolOptions, WasmExecutionMethod,
};
use amax_node::service::database::{
    frontier_database_dir, open_frontier_backend, BaseDir, FrontierDatabase,
};
use amax_node::service::inherents::{create_inherent_data_providers, inherent_data_at};
use amax_node::service::keystore::{hook_up_remote_keystore, remote_keystore, ServiceError};
use amax_node::service::startup::{new_full, new_partial, Outcome, Progress, Startup};
use amax_node::service::steps::{wants, Step, ORDER, PARTIAL_STEPS, STEPS};
use amax_node::service::tasks::{spawn_frontier_tasks, FrontierWork, SyncStrategy};

fn configuration() -> Configuration {
    Configuration {
        keystore_remote: None,
        telemetry_endpoints: None,
        wasm_method: WasmExecutionMethod::Compiled,
        default_heap_pages: Some(2048),
        max_runtime_instances: 8,
        runtime_cache_size: 2,
        transaction_pool: TransactionPoolOptions {
            ready: PoolLimit { count: 8_192, total_bytes: 20_971_520 },
            future: PoolLimit { count: 512, total_bytes: 1_048_576 },
            reject_future_transactions: false,
            ban_time_secs: 1_800,
            ban_time_nanos: 0,
        },
        prometheus: false,
        role: Role::Full,
        database: DatabaseSource::RocksDb,
        base_path: Some(PathBuf::from("/data/node")),
        chain_id: String::from("wall_e_dev"),
        executable_name: String::from("amax"),
        force_authoring: false,
        node_name: String::from("eva"),
        disable_grandpa: false,
        offchain_worker: false,
    }
}

fn endpoints() -> Option<Vec<(String, u8)>> {
    Some(vec![(String::from("/dns/telemetry.example/tcp/443"), 0)])
}

/// The configuration in which every step is wanted.
fn everything() -> Configuration {
    Configuration {
        telemetry_endpoints: endpoints(),
        role: Role::Authority,
        offchain_worker: true,
        ..configuration()
    }
}

/// Whether an action belongs to a step.
fn is_action_of(action: &Action, step: Step) -> bool {
    format!("{:?}", action).starts_with(&format!("{:?}", step))
}

/// Lets every step of a start succeed; the debug names of the actions.
fn run(mut startup: Startup) -> Vec<String> {
    let mut names = vec![];
    loop {
        match startup.progress() {
            Progress::Perform(action) => {
                let debug = format!("{:?}", action);
                names.push(debug.split(' ').next().unwrap().to_string());
            }
            Progress::Complete => return names,
            _ => panic!("the start ended early"),
        }
        startup.advance(Outcome::Done);
    }
}

fn names(steps: &[Step]) -> Vec<String> {
    steps.iter().map(|step| format!("{:?}", step)).collect()
}

#[test]
fn benchmarking_host_functions_only_to_benchmark() {
    assert_eq!(ExecutorDispatch.extend_host_functions(true), HostFunctions::Benchmarking);
    assert_eq!(ExecutorDispatch.extend_host_functions(false), HostFunctions::Standard);
}

#[test]
fn only_authorities_are_authorities() {
    assert!(Role::Authority.is_authority());
    assert!(!Role::Full.is_authority());
}

#[test]
fn telemetry_needs_an_endpoint() {
    let mut config = configuration();
    assert!(config.telemetry().is_none());
    config.telemetry_endpoints = Some(vec![]);
    assert!(config.telemetry().is_none());
    config.telemetry_endpoints = endpoints();
    assert_eq!(config.telemetry(), endpoints().as_ref());
}

#[test]
fn frontier_directory_below_the_base_path() {
    let config = configuration();
    let dir = frontier_database_dir(&config, "db");
    assert_eq!(dir.parts(), ["chains", "wall_e_dev", "frontier", "db"]);
    match dir.base {
        BaseDir::Configured(path) => assert_eq!(path, &PathBuf::from("/data/node")),
        BaseDir::Project { .. } => panic!("the base path is configured"),
    }
}

#[test]
fn frontier_directory_without_a_base_path() {
    let config = Configuration { base_path: None, ..configuration() };
    let dir = frontier_database_dir(&config, "paritydb");
    assert_eq!(dir.parts(), ["chains", "wall_e_dev", "frontier", "paritydb"]);
    match dir.base {
        BaseDir::Project { qualifier, organization, application } => {
            assert_eq!((qualifier, organization, application.as_str()), ("", "", "amax"));
        }
        BaseDir::Configured(_) => panic!("no base path is configured"),
    }
}

#[test]
fn frontier_database_follows_the_chain_database() {
    let mut config = configuration();
    match open_frontier_backend(&config).unwrap() {
        FrontierDatabase::RocksDb { path, cache_size } => {
            assert_eq!(path.parts()[3], "db");
            assert_eq!(cache_size, 0);
        }
        _ => panic!("not a RocksDB database"),
    }
    config.database = DatabaseSource::ParityDb;
    match open_frontier_backend(&config).unwrap() {
        FrontierDatabase::ParityDb { path } => assert_eq!(path.parts()[3], "paritydb"),
        _ => panic!("not a ParityDB database"),
    }
    config.database = DatabaseSource::Auto;
    match open_frontier_backend(&config).unwrap() {
        FrontierDatabase::Auto { rocksdb_path, paritydb_path, cache_size } => {
            assert_eq!(rocksdb_path.parts(), ["chains", "wall_e_dev", "frontier", "db"]);
            assert_eq!(paritydb_path.parts(), ["chains", "wall_e_dev", "frontier", "paritydb"]);
            assert_eq!(cache_size, 0);
        }
        _ => panic!("not an automatic database"),
    }
}

#[test]
fn custom_database_is_unsupported() {
    let config = Configuration { database: DatabaseSource::Custom, ..configuration() };
    assert_eq!(
        open_frontier_backend(&config).unwrap_err(),
        "Supported db sources: `rocksdb` | `paritydb` | `auto`"
    );
}

#[test]
fn chains_have_their_own_directory() {
    let left = configuration();
    let right = Configuration { chain_id: String::from("wall_e_local_testnet"), ..configuration() };
    assert_ne!(
        frontier_database_dir(&left, "db").parts(),
        frontier_database_dir(&right, "db").parts()
    );
}

#[test]
fn slot_of_a_moment() {
    let data = inherent_data_at(1_655_000_012_345, 6_000);
    assert_eq!(data.timestamp, 1_655_000_012_345);
    assert_eq!(data.slot, 275_833_335);
}

#[test]
fn slots_change_at_their_bounds() {
    assert_eq!(inherent_data_at(0, 6_000).slot, 0);
    assert_eq!(inherent_data_at(5_999, 6_000).slot, 0);
    assert_eq!(inherent_data_at(6_000, 6_000).slot, 1);
    assert_eq!(inherent_data_at(11_999, 6_000).slot, 1);
    assert_eq!(inherent_data_at(u64::MAX, 1).slot, u64::MAX);
    assert_eq!(inherent_data_at(7, u64::MAX).slot, 0);
}

#[test]
fn next_slot_comes_one_duration_later() {
    let now = inherent_data_at(1_655_000_012_345, 6_000);
    let later = inherent_data_at(1_655_000_012_345 + 6_000, 6_000);
    assert_eq!(later.slot, now.slot + 1);
}

#[test]
fn inherent_data_of_now() {
    let data = create_inherent_data_providers(6_000);
    assert_eq!(data.slot, data.timestamp / 6_000);
    // The clock of the machine has passed the year 2020.
    assert!(data.timestamp > 1_577_836_800_000);
    let later = create_inherent_data_providers(6_000);
    assert!(later.slot >= data.slot);
}

#[test]
fn no_remote_keystore() {
    match remote_keystore("http://keys.example") {
        Ok(_) => panic!("there is no remote keystore"),
        Err(reason) => assert_eq!(reason, "Remote Keystore not supported."),
    }
}

#[test]
fn remote_keystore_is_not_hooked_up() {
    match hook_up_remote_keystore("http://keys.example") {
        Ok(_) => panic!("there is no remote keystore"),
        Err(ServiceError::Other(reason)) => assert_eq!(
            reason,
            "Error hooking up remote keystore for http://keys.example: Remote Keystore not supported."
        ),
    }
}

#[test]
fn remote_keystore_refuses_the_start() {
    let config =
        Configuration { keystore_remote: Some(String::from("http://k")), ..configuration() };
    match new_partial(&config) {
        Ok(_) => panic!("the configuration is refused"),
        Err(ServiceError::Other(reason)) => {
            assert_eq!(reason, "Remote Keystores are not supported.");
        }
    }
    match new_full(&config) {
        Ok(_) => panic!("the configuration is refused"),
        Err(ServiceError::Other(reason)) => {
            assert_eq!(reason, "Remote Keystores are not supported.");
        }
    }
}

#[test]
fn frontier_tasks_with_a_filter_pool() {
    let tasks = spawn_frontier_tasks(true, 100_000);
    let names: Vec<&str> = tasks.iter().map(|task| task.task.name).collect();
    assert_eq!(
        names,
        vec![
            "frontier-mapping-sync-worker",
            "frontier-filter-pool",
            "frontier-fee-history",
            "frontier-schema-cache-task",
        ]
    );
    for task in &tasks {
        assert!(task.task.essential);
        assert!(!task.task.blocking);
        assert_eq!(task.task.group, Some("frontier"));
    }
    assert_eq!(
        tasks[0].work,
        FrontierWork::MappingSync {
            interval_secs: 2,
            retry_times: 3,
            sync_from: 0,
            strategy: SyncStrategy::Normal,
        }
    );
    assert_eq!(tasks[1].work, FrontierWork::FilterPool { retain_threshold: 100 });
    assert_eq!(tasks[2].work, FrontierWork::FeeHistory { limit: 100_000 });
    assert_eq!(tasks[3].work, FrontierWork::SchemaCache);
}

#[test]
fn frontier_tasks_without_a_filter_pool() {
    let tasks = spawn_frontier_tasks(false, 7);
    let names: Vec<&str> = tasks.iter().map(|task| task.task.name).collect();
    assert_eq!(
        names,
        vec!["frontier-mapping-sync-worker", "frontier-fee-history", "frontier-schema-cache-task"]
    );
    assert_eq!(tasks[1].work, FrontierWork::FeeHistory { limit: 7 });
}

#[test]
fn full_start_takes_every_wanted_step() {
    let config = everything();
    assert_eq!(run(new_full(&config).ok().unwrap()), names(&ORDER));
    assert_eq!(ORDER.len(), STEPS);
}

#[test]
fn partial_start_is_the_beginning_of_the_full_start() {
    let config = everything();
    let partial = run(new_partial(&config).ok().unwrap());
    let full = run(new_full(&config).ok().unwrap());
    assert_eq!(partial, names(&ORDER[..PARTIAL_STEPS]));
    assert_eq!(full[..partial.len()], partial[..]);
}

#[test]
fn plain_node_takes_the_fewest_steps() {
    let config = Configuration { disable_grandpa: true, ..configuration() };
    let taken = run(new_full(&config).ok().unwrap());
    assert_eq!(
        taken,
        names(&[
            Step::CreateExecutor,
            Step::BuildFullParts,
            Step::SelectLongestChain,
            Step::CreateTransactionPool,
            Step::OpenFrontierBackend,
            Step::CreateEthCaches,
            Step::ImportGrandpaBlocks,
            Step::ImportFrontierBlocks,
            Step::ReadSlotDuration,
            Step::BuildImportQueue,
            Step::NameGrandpaProtocol,
            Step::AddGrandpaPeersSet,
            Step::ProvideWarpSync,
            Step::BuildNetwork,
            Step::CacheEthBlocks,
            Step::BuildRpcExtensions,
            Step::SpawnServiceTasks,
            Step::SpawnFrontierTasks,
            Step::ConfigureGrandpa,
            Step::StartNetwork,
        ])
    );
}

#[test]
fn empty_endpoints_are_no_telemetry() {
    let config = Configuration { telemetry_endpoints: Some(vec![]), ..configuration() };
    let taken = run(new_partial(&config).ok().unwrap());
    assert!(!taken.contains(&String::from("CreateTelemetry")));
    assert!(!taken.contains(&String::from("SpawnTelemetryWorker")));
}

#[test]
fn network_starts_last_whatever_is_wanted() {
    for bits in 0..16u8 {
        let config = Configuration {
            telemetry_endpoints: if bits & 1 != 0 { endpoints() } else { None },
            offchain_worker: bits & 2 != 0,
            role: if bits & 4 != 0 { Role::Authority } else { Role::Full },
            disable_grandpa: bits & 8 != 0,
            ..configuration()
        };
        let taken = run(new_full(&config).ok().unwrap());
        let wanted: Vec<Step> =
            ORDER.iter().copied().filter(|step| wants(&config, *step)).collect();
        assert_eq!(taken, names(&wanted));
        assert_eq!(taken.last(), Some(&String::from("StartNetwork")));
        assert_eq!(taken.contains(&String::from("StartAura")), bits & 4 != 0);
        assert_eq!(taken.contains(&String::from("SpawnGrandpaVoter")), bits & 8 == 0);
        assert_eq!(taken.contains(&String::from("BuildOffchainWorkers")), bits & 2 != 0);
    }
}

#[test]
fn failure_ends_the_start_at_every_step() {
    let config = everything();
    for fails_at in 0..STEPS {
        let mut startup = new_full(&config).ok().unwrap();
        for _ in 0..fails_at {
            startup.advance(Outcome::Done);
        }
        startup.advance(Outcome::Failed);
        for outcome in [Outcome::Done, Outcome::Failed, Outcome::Done] {
            match startup.progress() {
                Progress::Failed(step) => assert_eq!(step, ORDER[fails_at]),
                _ => panic!("the start has failed"),
            }
            startup.advance(outcome);
        }
    }
}

#[test]
fn complete_start_stays_complete() {
    let config = configuration();
    let mut startup = new_partial(&config).ok().unwrap();
    for _ in 0..STEPS {
        startup.advance(Outcome::Done);
    }
    startup.advance(Outcome::Failed);
    assert!(matches!(startup.progress(), Progress::Complete));
}

#[test]
fn custom_database_ends_the_start() {
    let config = Configuration { database: DatabaseSource::Custom, ..everything() };
    let mut startup = new_full(&config).ok().unwrap();
    for step in &ORDER[..6] {
        match startup.progress() {
            Progress::Perform(action) => assert!(is_action_of(&action, *step)),
            _ => panic!("the database is not opened yet"),
        }
        startup.advance(Outcome::Done);
    }
    for outcome in [Outcome::Done, Outcome::Failed] {
        match startup.progress() {
            Progress::Refused(reason) => assert_eq!(
                reason,
                "Supported db sources: `rocksdb` | `paritydb` | `auto`"
            ),
            _ => panic!("the database is not supported"),
        }
        startup.advance(outcome);
    }
}

#[test]
fn actions_hand_the_configuration_on() {
    let config = Configuration { force_authoring: true, ..everything() };
    match action(&config, Step::CreateTelemetry).unwrap() {
        Action::CreateTelemetry { buffer_size, endpoints } => {
            assert_eq!(buffer_size, 16);
            assert_eq!(Some(endpoints), config.telemetry_endpoints.as_ref());
        }
        _ => panic!("another action"),
    }
    match action(&config, Step::CreateExecutor).unwrap() {
        Action::CreateExecutor {
            wasm_method,
            heap_pages,
            max_runtime_instances,
            runtime_cache_size,
        } => {
            assert_eq!(wasm_method, WasmExecutionMethod::Compiled);
            assert_eq!(heap_pages, Some(2048));
            assert_eq!(max_runtime_instances, 8);
            assert_eq!(runtime_cache_size, 2);
        }
        _ => panic!("another action"),
    }
    match action(&config, Step::CreateTransactionPool).unwrap() {
        Action::CreateTransactionPool { options, is_authority, .. } => {
            assert_eq!(options, config.transaction_pool);
            assert_eq!(options.future.count, 512);
            assert!(is_authority);
        }
        _ => panic!("another action"),
    }
    match action(&config, Step::StartAura).unwrap() {
        Action::StartAura {
            force_authoring,
            backoff_authoring_blocks,
            block_proposal_slot_portion,
            max_block_proposal_slot_portion,
            telemetry,
            ..
        } => {
            assert!(force_authoring);
            assert!(!backoff_authoring_blocks);
            assert_eq!(
                block_proposal_slot_portion,
                SlotPortion { numerator: 2, denominator: 3 }
            );
            assert!(max_block_proposal_slot_portion.is_none());
            assert!(telemetry);
        }
        _ => panic!("another action"),
    }
}

#[test]
fn caches_are_used_as_created() {
    let config = configuration();
    match action(&config, Step::CreateEthCaches).unwrap() {
        Action::CreateEthCaches { filter_pool, fee_history_limit } => {
            assert!(filter_pool);
            assert_eq!(fee_history_limit, 100_000);
        }
        _ => panic!("another action"),
    }
    match action(&config, Step::CacheEthBlocks).unwrap() {
        Action::CacheEthBlocks { blocks_cache_size, statuses_cache_size, .. } => {
            assert_eq!((blocks_cache_size, statuses_cache_size), (50, 50));
        }
        _ => panic!("another action"),
    }
    match action(&config, Step::BuildRpcExtensions).unwrap() {
        Action::BuildRpcExtensions {
            is_authority,
            enable_dev_signer,
            max_past_logs,
            fee_history_limit,
            ..
        } => {
            assert!(!is_authority);
            assert!(enable_dev_signer);
            assert_eq!(max_past_logs, 1_000);
            assert_eq!(fee_history_limit, 100_000);
        }
        _ => panic!("another action"),
    }
    match action(&config, Step::SpawnFrontierTasks).unwrap() {
        Action::SpawnFrontierTasks { filter_pool, fee_history_limit } => {
            assert!(filter_pool);
            assert_eq!(fee_history_limit, 100_000);
        }
        _ => panic!("another action"),
    }
}

#[test]
fn grandpa_gets_a_keystore_from_authorities_alone() {
    for role in [Role::Full, Role::Authority] {
        let config = Configuration { role, ..configuration() };
        match action(&config, Step::ConfigureGrandpa).unwrap() {
            Action::ConfigureGrandpa {
                gossip_duration_millis,
                justification_period,
                name,
                observer_enabled,
                keystore,
                local_role,
                telemetry,
                protocol_name,
            } => {
                assert_eq!(gossip_duration_millis, 333);
                assert_eq!(justification_period, 512);
                assert_eq!(name, "eva");
                assert!(!observer_enabled);
                assert_eq!(keystore, role == Role::Authority);
                assert_eq!(local_role, role);
                assert!(!telemetry);
                assert_eq!(protocol_name, Component::GrandpaProtocolName);
            }
            _ => panic!("another action"),
        }
    }
}

#[test]
fn spawned_tasks_are_described() {
    let config = everything();
    match action(&config, Step::SpawnTelemetryWorker).unwrap() {
        Action::SpawnTelemetryWorker { task } => {
            assert_eq!((task.name, task.group), ("telemetry", None));
            assert_eq!((task.essential, task.blocking), (false, false));
        }
        _ => panic!("another action"),
    }
    match action(&config, Step::SpawnAura).unwrap() {
        Action::SpawnAura { task } => {
            assert_eq!((task.name, task.group), ("aura", Some("block-authoring")));
            assert_eq!((task.essential, task.blocking), (true, true));
        }
        _ => panic!("another action"),
    }
    match action(&config, Step::SpawnGrandpaVoter).unwrap() {
        Action::SpawnGrandpaVoter { task } => {
            assert_eq!((task.name, task.group), ("grandpa-voter", None));
            assert_eq!((task.essential, task.blocking), (true, true));
        }
        _ => panic!("another action"),
    }
}

#[test]
fn pool_and_import_queue_spawn_essential_tasks() {
    let config = everything();
    let handle = |step| match action(&config, step).unwrap() {
        Action::CreateTransactionPool { spawn_handle, .. }
        | Action::BuildImportQueue { spawn_handle, .. }
        | Action::BuildNetwork { spawn_handle, .. }
        | Action::BuildOffchainWorkers { spawn_handle }
        | Action::CacheEthBlocks { spawn_handle, .. }
        | Action::BuildRpcExtensions { spawn_handle, .. }
        | Action::CreateProposerFactory { spawn_handle, .. } => Some(spawn_handle),
        _ => None,
    };
    for step in ORDER {
        let expected = match step {
            Step::CreateTransactionPool | Step::BuildImportQueue => Some(SpawnHandle::Essential),
            Step::BuildNetwork
            | Step::BuildOffchainWorkers
            | Step::CacheEthBlocks
            | Step::BuildRpcExtensions
            | Step::CreateProposerFactory => Some(SpawnHandle::Ordinary),
            _ => None,
        };
        assert_eq!(handle(step), expected);
    }
}

#[test]
fn blocks_come_in_through_frontier() {
    let config = everything();
    match action(&config, Step::ImportFrontierBlocks).unwrap() {
        Action::ImportFrontierBlocks { inner } => assert_eq!(inner, Component::GrandpaImport),
        _ => panic!("another action"),
    }
    match action(&config, Step::BuildImportQueue).unwrap() {
        Action::BuildImportQueue { block_import, justification_import, .. } => {
            assert_eq!(block_import, Component::BlockImport);
            assert_eq!(justification_import, Some(Component::GrandpaImport));
        }
        _ => panic!("another action"),
    }
    match action(&config, Step::StartAura).unwrap() {
        Action::StartAura { block_import, .. } => assert_eq!(block_import, Component::BlockImport),
        _ => panic!("another action"),
    }
}

#[test]
fn registry_is_handed_on_where_there_is_one() {
    for prometheus in [false, true] {
        let config = Configuration { prometheus, ..everything() };
        let mut handed = 0;
        for step in ORDER {
            match action(&config, step).unwrap() {
                Action::CreateTransactionPool { prometheus_registry, .. }
                | Action::BuildImportQueue { prometheus_registry, .. }
                | Action::CacheEthBlocks { prometheus_registry, .. }
                | Action::CreateProposerFactory { prometheus_registry, .. }
                | Action::RunGrandpaVoter { prometheus_registry, .. } => {
                    assert_eq!(prometheus_registry, prometheus);
                    handed += 1;
                }
                _ => {}
            }
        }
        assert_eq!(handed, 5);
    }
}

#[test]
fn no_hard_forks_and_no_announce_validator() {
    let config = configuration();
    assert!(matches!(
        action(&config, Step::ProvideWarpSync).unwrap(),
        Action::ProvideWarpSync { hard_forks: false }
    ));
    assert!(matches!(
        action(&config, Step::BuildNetwork).unwrap(),
        Action::BuildNetwork { block_announce_validator: false, warp_sync: true, .. }
    ));
}

/// The steps that are handed a component.
fn users(config: &Configuration, component: Component) -> Vec<Step> {
    ORDER.iter().copied().filter(|step| hands_over(config, *step, component)).collect()
}

#[test]
fn components_are_handed_over() {
    let config = everything();
    assert_eq!(
        users(&config, Component::GrandpaImport),
        vec![Step::ImportFrontierBlocks, Step::BuildImportQueue]
    );
    assert_eq!(
        users(&config, Component::BlockImport),
        vec![Step::BuildImportQueue, Step::StartAura]
    );
    assert_eq!(
        users(&config, Component::GrandpaLink),
        vec![Step::ProvideWarpSync, Step::RunGrandpaVoter]
    );
    assert_eq!(users(&config, Component::NetworkStarter), vec![Step::StartNetwork]);
    assert_eq!(
        users(&config, Component::Telemetry),
        vec![
            Step::BuildFullParts,
            Step::ImportGrandpaBlocks,
            Step::BuildImportQueue,
            Step::SpawnServiceTasks,
            Step::CreateProposerFactory,
            Step::StartAura,
            Step::ConfigureGrandpa,
            Step::RunGrandpaVoter,
        ]
    );
    assert_eq!(users(&configuration(), Component::Telemetry), vec![]);
}

#[test]
fn grandpa_peers_set_reaches_all_who_are_given_the_configuration() {
    for disable_grandpa in [false, true] {
        let config = Configuration { disable_grandpa, ..everything() };
        assert_eq!(made_in(Component::GrandpaPeersSet), Step::AddGrandpaPeersSet);
        assert!(wants(&config, Step::AddGrandpaPeersSet));
        assert_eq!(
            users(&config, Component::GrandpaPeersSet),
            vec![Step::BuildNetwork, Step::BuildOffchainWorkers, Step::SpawnServiceTasks]
        );
        assert_eq!(users(&config, Component::WarpSync), vec![Step::BuildNetwork]);
        assert!(matches!(
            action(&config, Step::AddGrandpaPeersSet).unwrap(),
            Action::AddGrandpaPeersSet { protocol_name: Component::GrandpaProtocolName }
        ));
    }
}

#[test]
fn grandpa_is_handed_the_keystore_of_an_authority() {
    for role in [Role::Full, Role::Authority] {
        let config = Configuration { role, ..configuration() };
        assert_eq!(
            hands_over(&config, Step::ConfigureGrandpa, Component::Keystore),
            role == Role::Authority
        );
        assert!(hands_over(&config, Step::SpawnServiceTasks, Component::Keystore));
    }
}

#[test]
fn components_are_made_before_their_use() {
    assert_eq!(made_in(Component::TaskManager), Step::BuildFullParts);
    assert_eq!(made_in(Component::BlockImport), Step::ImportFrontierBlocks);
    assert_eq!(made_in(Component::GrandpaVoter), Step::RunGrandpaVoter);
    let config = everything();
    let place = |step| ORDER.iter().position(|other| *other == step).unwrap();
    for component in [
        Component::TelemetryWorker,
        Component::Telemetry,
        Component::Executor,
        Component::Client,
        Component::Keystore,
        Component::TransactionPool,
        Component::GrandpaImport,
        Component::BlockImport,
        Component::ImportQueue,
        Component::GrandpaProtocolName,
        Component::GrandpaPeersSet,
        Component::WarpSync,
        Component::Network,
        Component::RpcExtensions,
        Component::ProposerFactory,
        Component::Aura,
        Component::GrandpaConfig,
        Component::GrandpaVoter,
    ] {
        for step in users(&config, component) {
            assert!(place(made_in(component)) < place(step));
        }
    }
}

#[test]
fn next_step_is_known_until_the_start_ends() {
    let config = configuration();
    let mut startup = new_partial(&config).ok().unwrap();
    for step in ORDER[..PARTIAL_STEPS].iter().filter(|step| wants(&config, **step)) {
        assert_eq!(startup.next_step(), Some(*step));
        startup.advance(Outcome::Done);
    }
    assert_eq!(startup.next_step(), None);
    let mut failing = new_partial(&config).ok().unwrap();
    failing.advance(Outcome::Failed);
    assert!(matches!(failing.progress(), Progress::Failed(Step::CreateExecutor)));
}
