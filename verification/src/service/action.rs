//! What is done in each step of the start of a node, and with what.

use vstd::prelude::*;

use crate::service::components::Component;
use crate::service::config::{
    Configuration, DatabaseSource, Role, TransactionPoolOptions, WasmExecutionMethod,
};
use crate::service::database::{
    frontier_database, open_frontier_backend, FrontierDatabase, UNSUPPORTED_DATABASE,
};
use crate::service::steps::{is_wanted, Step};
use crate::service::tasks::Task;

verus! {

/// How many telemetry messages may wait to be sent.
pub const TELEMETRY_BUFFER_SIZE: usize = 16;

/// How many blocks the fee history reaches back.
pub const FEE_HISTORY_CACHE_LIMIT: u64 = 100_000;

/// How many Ethereum blocks are cached.
pub const ETH_BLOCKS_CACHE_SIZE: usize = 50;

/// How many sets of Ethereum transaction statuses are cached.
pub const ETH_STATUSES_CACHE_SIZE: usize = 50;

/// How many past logs a query may return.
pub const MAX_PAST_LOGS: u32 = 1_000;

/// The milliseconds between two rounds of GRANDPA gossip.
pub const GOSSIP_DURATION_MILLIS: u64 = 333;

/// How many blocks lie between two stored GRANDPA justifications.
pub const JUSTIFICATION_PERIOD: u32 = 512;

/// A part of a slot.
#[derive(Debug, Clone, Copy, PartialEq, Eq, Structural)]
pub struct SlotPortion {
    pub numerator: u32,
    pub denominator: u32,
}

/// A handle by which tasks are spawned.
#[derive(Debug, Clone, Copy, PartialEq, Eq, Structural)]
pub enum SpawnHandle {
    /// The node survives the tasks.
    Ordinary,
    /// The node goes down with the tasks.
    Essential,
}

/// What to do in a step. Where an action speaks of `telemetry` or of
/// `prometheus_registry`, it says whether a telemetry handle or the registry is
/// handed on.
#[derive(Debug)]
pub enum Action<'a> {
    CreateTelemetry { buffer_size: usize, endpoints: &'a Vec<(String, u8)> },
    CreateExecutor {
        wasm_method: WasmExecutionMethod,
        heap_pages: Option<u64>,
        max_runtime_instances: usize,
        runtime_cache_size: u8,
    },
    BuildFullParts { telemetry: bool },
    SpawnTelemetryWorker { task: Task },
    SelectLongestChain,
    CreateTransactionPool {
        options: TransactionPoolOptions,
        is_authority: bool,
        prometheus_registry: bool,
        spawn_handle: SpawnHandle,
    },
    OpenFrontierBackend { database: FrontierDatabase<'a> },
    CreateEthCaches { filter_pool: bool, fee_history_limit: u64 },
    ImportGrandpaBlocks { telemetry: bool },
    ImportFrontierBlocks { inner: Component },
    ReadSlotDuration,
    BuildImportQueue {
        block_import: Component,
        justification_import: Option<Component>,
        spawn_handle: SpawnHandle,
        prometheus_registry: bool,
        telemetry: bool,
    },
    NameGrandpaProtocol,
    AddGrandpaPeersSet { protocol_name: Component },
    ProvideWarpSync { hard_forks: bool },
    BuildNetwork { spawn_handle: SpawnHandle, block_announce_validator: bool, warp_sync: bool },
    BuildOffchainWorkers { spawn_handle: SpawnHandle },
    CacheEthBlocks {
        spawn_handle: SpawnHandle,
        blocks_cache_size: usize,
        statuses_cache_size: usize,
        prometheus_registry: bool,
    },
    BuildRpcExtensions {
        is_authority: bool,
        enable_dev_signer: bool,
        max_past_logs: u32,
        fee_history_limit: u64,
        spawn_handle: SpawnHandle,
    },
    SpawnServiceTasks { telemetry: bool },
    SpawnFrontierTasks { filter_pool: bool, fee_history_limit: u64 },
    CreateProposerFactory {
        spawn_handle: SpawnHandle,
        prometheus_registry: bool,
        telemetry: bool,
    },
    ReadAuthoringSlotDuration,
    StartAura {
        block_import: Component,
        force_authoring: bool,
        backoff_authoring_blocks: bool,
        block_proposal_slot_portion: SlotPortion,
        max_block_proposal_slot_portion: Option<SlotPortion>,
        telemetry: bool,
    },
    SpawnAura { task: Task },
    ConfigureGrandpa {
        gossip_duration_millis: u64,
        justification_period: u32,
        name: &'a String,
        observer_enabled: bool,
        keystore: bool,
        local_role: Role,
        telemetry: bool,
        protocol_name: Component,
    },
    RunGrandpaVoter { prometheus_registry: bool, telemetry: bool },
    SpawnGrandpaVoter { task: Task },
    StartNetwork,
}

/// The task that runs the telemetry worker.
pub open spec fn telemetry_task() -> Task {
    Task { name: "telemetry", group: None, essential: false, blocking: false }
}

/// The task that authors blocks. The node goes down with it.
pub open spec fn aura_task() -> Task {
    Task { name: "aura", group: Some("block-authoring"), essential: true, blocking: true }
}

/// The task that votes on the finality of blocks. The node goes down with it.
pub open spec fn grandpa_task() -> Task {
    Task { name: "grandpa-voter", group: None, essential: true, blocking: true }
}

/// What is done in a step.
pub open spec fn action_of<'a>(config: &'a Configuration, step: Step) -> Action<'a> {
    let telemetry = config.reports_telemetry();
    let is_authority = config.role == Role::Authority;
    match step {
        Step::CreateTelemetry => Action::CreateTelemetry {
            buffer_size: TELEMETRY_BUFFER_SIZE,
            endpoints: &config.telemetry_endpoints->0,
        },
        Step::CreateExecutor => Action::CreateExecutor {
            wasm_method: config.wasm_method,
            heap_pages: config.default_heap_pages,
            max_runtime_instances: config.max_runtime_instances,
            runtime_cache_size: config.runtime_cache_size,
        },
        Step::BuildFullParts => Action::BuildFullParts { telemetry },
        Step::SpawnTelemetryWorker => Action::SpawnTelemetryWorker { task: telemetry_task() },
        Step::SelectLongestChain => Action::SelectLongestChain,
        Step::CreateTransactionPool => Action::CreateTransactionPool {
            options: config.transaction_pool,
            is_authority,
            prometheus_registry: config.prometheus,
            spawn_handle: SpawnHandle::Essential,
        },
        Step::OpenFrontierBackend => Action::OpenFrontierBackend {
            database: frontier_database(config)->0,
        },
        Step::CreateEthCaches => Action::CreateEthCaches {
            filter_pool: true,
            fee_history_limit: FEE_HISTORY_CACHE_LIMIT,
        },
        Step::ImportGrandpaBlocks => Action::ImportGrandpaBlocks { telemetry },
        Step::ImportFrontierBlocks => Action::ImportFrontierBlocks {
            inner: Component::GrandpaImport,
        },
        Step::ReadSlotDuration => Action::ReadSlotDuration,
        Step::BuildImportQueue => Action::BuildImportQueue {
            block_import: Component::BlockImport,
            justification_import: Some(Component::GrandpaImport),
            spawn_handle: SpawnHandle::Essential,
            prometheus_registry: config.prometheus,
            telemetry,
        },
        Step::NameGrandpaProtocol => Action::NameGrandpaProtocol,
        Step::AddGrandpaPeersSet => Action::AddGrandpaPeersSet {
            protocol_name: Component::GrandpaProtocolName,
        },
        Step::ProvideWarpSync => Action::ProvideWarpSync { hard_forks: false },
        Step::BuildNetwork => Action::BuildNetwork {
            spawn_handle: SpawnHandle::Ordinary,
            block_announce_validator: false,
            warp_sync: true,
        },
        Step::BuildOffchainWorkers => Action::BuildOffchainWorkers {
            spawn_handle: SpawnHandle::Ordinary,
        },
        Step::CacheEthBlocks => Action::CacheEthBlocks {
            spawn_handle: SpawnHandle::Ordinary,
            blocks_cache_size: ETH_BLOCKS_CACHE_SIZE,
            statuses_cache_size: ETH_STATUSES_CACHE_SIZE,
            prometheus_registry: config.prometheus,
        },
        Step::BuildRpcExtensions => Action::BuildRpcExtensions {
            is_authority,
            enable_dev_signer: true,
            max_past_logs: MAX_PAST_LOGS,
            fee_history_limit: FEE_HISTORY_CACHE_LIMIT,
            spawn_handle: SpawnHandle::Ordinary,
        },
        Step::SpawnServiceTasks => Action::SpawnServiceTasks { telemetry },
        Step::SpawnFrontierTasks => Action::SpawnFrontierTasks {
            filter_pool: true,
            fee_history_limit: FEE_HISTORY_CACHE_LIMIT,
        },
        Step::CreateProposerFactory => Action::CreateProposerFactory {
            spawn_handle: SpawnHandle::Ordinary,
            prometheus_registry: config.prometheus,
            telemetry,
        },
        Step::ReadAuthoringSlotDuration => Action::ReadAuthoringSlotDuration,
        Step::StartAura => Action::StartAura {
            block_import: Component::BlockImport,
            force_authoring: config.force_authoring,
            backoff_authoring_blocks: false,
            block_proposal_slot_portion: SlotPortion { numerator: 2, denominator: 3 },
            max_block_proposal_slot_portion: None,
            telemetry,
        },
        Step::SpawnAura => Action::SpawnAura { task: aura_task() },
        Step::ConfigureGrandpa => Action::ConfigureGrandpa {
            gossip_duration_millis: GOSSIP_DURATION_MILLIS,
            justification_period: JUSTIFICATION_PERIOD,
            name: &config.node_name,
            observer_enabled: false,
            keystore: is_authority,
            local_role: config.role,
            telemetry,
            protocol_name: Component::GrandpaProtocolName,
        },
        Step::RunGrandpaVoter => Action::RunGrandpaVoter {
            prometheus_registry: config.prometheus,
            telemetry,
        },
        Step::SpawnGrandpaVoter => Action::SpawnGrandpaVoter { task: grandpa_task() },
        Step::StartNetwork => Action::StartNetwork,
    }
}

/// Whether the database of the chain keeps a step from being taken.
pub open spec fn is_refused(config: &Configuration, step: Step) -> bool {
    step == Step::OpenFrontierBackend && config.database == DatabaseSource::Custom
}

/// What to do in a wanted step, or why it cannot be taken.
pub fn action<'a>(config: &'a Configuration, step: Step) -> (r: Result<Action<'a>, String>)
    requires
        is_wanted(config, step),
    ensures
        r is Err <==> is_refused(config, step),
        r is Ok ==> r->Ok_0 == action_of(config, step),
        r is Err ==> r->Err_0@ == UNSUPPORTED_DATABASE@,
        r is Err ==> r->Err_0@ == "Supported db sources: `rocksdb` | `paritydb` | `auto`"@,
{
    let endpoints = config.telemetry();
    let telemetry = endpoints.is_some();
    let is_authority = config.role.is_authority();
    let action = match step {
        Step::CreateTelemetry => match endpoints {
            Some(endpoints) => Action::CreateTelemetry {
                buffer_size: TELEMETRY_BUFFER_SIZE,
                endpoints,
            },
            None => vstd::pervasive::unreached(),
        },
        Step::CreateExecutor => Action::CreateExecutor {
            wasm_method: config.wasm_method,
            heap_pages: config.default_heap_pages,
            max_runtime_instances: config.max_runtime_instances,
            runtime_cache_size: config.runtime_cache_size,
        },
        Step::BuildFullParts => Action::BuildFullParts { telemetry },
        Step::SpawnTelemetryWorker => Action::SpawnTelemetryWorker {
            task: Task { name: "telemetry", group: None, essential: false, blocking: false },
        },
        Step::SelectLongestChain => Action::SelectLongestChain,
        Step::CreateTransactionPool => Action::CreateTransactionPool {
            options: config.transaction_pool,
            is_authority,
            prometheus_registry: config.prometheus,
            spawn_handle: SpawnHandle::Essential,
        },
        Step::OpenFrontierBackend => match open_frontier_backend(config) {
            Ok(database) => Action::OpenFrontierBackend { database },
            Err(reason) => return Err(reason),
        },
        Step::CreateEthCaches => Action::CreateEthCaches {
            filter_pool: true,
            fee_history_limit: FEE_HISTORY_CACHE_LIMIT,
        },
        Step::ImportGrandpaBlocks => Action::ImportGrandpaBlocks { telemetry },
        Step::ImportFrontierBlocks => Action::ImportFrontierBlocks {
            inner: Component::GrandpaImport,
        },
        Step::ReadSlotDuration => Action::ReadSlotDuration,
        Step::BuildImportQueue => Action::BuildImportQueue {
            block_import: Component::BlockImport,
            justification_import: Some(Component::GrandpaImport),
            spawn_handle: SpawnHandle::Essential,
            prometheus_registry: config.prometheus,
            telemetry,
        },
        Step::NameGrandpaProtocol => Action::NameGrandpaProtocol,
        Step::AddGrandpaPeersSet => Action::AddGrandpaPeersSet {
            protocol_name: Component::GrandpaProtocolName,
        },
        Step::ProvideWarpSync => Action::ProvideWarpSync { hard_forks: false },
        Step::BuildNetwork => Action::BuildNetwork {
            spawn_handle: SpawnHandle::Ordinary,
            block_announce_validator: false,
            warp_sync: true,
        },
        Step::BuildOffchainWorkers => Action::BuildOffchainWorkers {
            spawn_handle: SpawnHandle::Ordinary,
        },
        Step::CacheEthBlocks => Action::CacheEthBlocks {
            spawn_handle: SpawnHandle::Ordinary,
            blocks_cache_size: ETH_BLOCKS_CACHE_SIZE,
            statuses_cache_size: ETH_STATUSES_CACHE_SIZE,
            prometheus_registry: config.prometheus,
        },
        Step::BuildRpcExtensions => Action::BuildRpcExtensions {
            is_authority,
            enable_dev_signer: true,
            max_past_logs: MAX_PAST_LOGS,
            fee_history_limit: FEE_HISTORY_CACHE_LIMIT,
            spawn_handle: SpawnHandle::Ordinary,
        },
        Step::SpawnServiceTasks => Action::SpawnServiceTasks { telemetry },
        Step::SpawnFrontierTasks => Action::SpawnFrontierTasks {
            filter_pool: true,
            fee_history_limit: FEE_HISTORY_CACHE_LIMIT,
        },
        Step::CreateProposerFactory => Action::CreateProposerFactory {
            spawn_handle: SpawnHandle::Ordinary,
            prometheus_registry: config.prometheus,
            telemetry,
        },
        Step::ReadAuthoringSlotDuration => Action::ReadAuthoringSlotDuration,
        Step::StartAura => Action::StartAura {
            block_import: Component::BlockImport,
            force_authoring: config.force_authoring,
            backoff_authoring_blocks: false,
            block_proposal_slot_portion: SlotPortion { numerator: 2, denominator: 3 },
            max_block_proposal_slot_portion: None,
            telemetry,
        },
        Step::SpawnAura => Action::SpawnAura {
            task: Task { name: "aura", group: Some("block-authoring"), essential: true, blocking: true },
        },
        Step::ConfigureGrandpa => Action::ConfigureGrandpa {
            gossip_duration_millis: GOSSIP_DURATION_MILLIS,
            justification_period: JUSTIFICATION_PERIOD,
            name: &config.node_name,
            observer_enabled: false,
            keystore: is_authority,
            local_role: config.role,
            telemetry,
            protocol_name: Component::GrandpaProtocolName,
        },
        Step::RunGrandpaVoter => Action::RunGrandpaVoter {
            prometheus_registry: config.prometheus,
            telemetry,
        },
        Step::SpawnGrandpaVoter => Action::SpawnGrandpaVoter {
            task: Task { name: "grandpa-voter", group: None, essential: true, blocking: true },
        },
        Step::StartNetwork => Action::StartNetwork,
    };
    Ok(action)
}

/// Every action is the one of its step.
pub proof fn law_action_is_that_of_its_step(config: &Configuration, step: Step)
    ensures
        match action_of(config, step) {
            Action::CreateTelemetry { .. } => step is CreateTelemetry,
            Action::CreateExecutor { .. } => step is CreateExecutor,
            Action::BuildFullParts { .. } => step is BuildFullParts,
            Action::SpawnTelemetryWorker { .. } => step is SpawnTelemetryWorker,
            Action::SelectLongestChain => step is SelectLongestChain,
            Action::CreateTransactionPool { .. } => step is CreateTransactionPool,
            Action::OpenFrontierBackend { .. } => step is OpenFrontierBackend,
            Action::CreateEthCaches { .. } => step is CreateEthCaches,
            Action::ImportGrandpaBlocks { .. } => step is ImportGrandpaBlocks,
            Action::ImportFrontierBlocks { .. } => step is ImportFrontierBlocks,
            Action::ReadSlotDuration => step is ReadSlotDuration,
            Action::BuildImportQueue { .. } => step is BuildImportQueue,
            Action::NameGrandpaProtocol => step is NameGrandpaProtocol,
            Action::AddGrandpaPeersSet { .. } => step is AddGrandpaPeersSet,
            Action::ProvideWarpSync { .. } => step is ProvideWarpSync,
            Action::BuildNetwork { .. } => step is BuildNetwork,
            Action::BuildOffchainWorkers { .. } => step is BuildOffchainWorkers,
            Action::CacheEthBlocks { .. } => step is CacheEthBlocks,
            Action::BuildRpcExtensions { .. } => step is BuildRpcExtensions,
            Action::SpawnServiceTasks { .. } => step is SpawnServiceTasks,
            Action::SpawnFrontierTasks { .. } => step is SpawnFrontierTasks,
            Action::CreateProposerFactory { .. } => step is CreateProposerFactory,
            Action::ReadAuthoringSlotDuration => step is ReadAuthoringSlotDuration,
            Action::StartAura { .. } => step is StartAura,
            Action::SpawnAura { .. } => step is SpawnAura,
            Action::ConfigureGrandpa { .. } => step is ConfigureGrandpa,
            Action::RunGrandpaVoter { .. } => step is RunGrandpaVoter,
            Action::SpawnGrandpaVoter { .. } => step is SpawnGrandpaVoter,
            Action::StartNetwork => step is StartNetwork,
        },
{
}

/// The settings of a node reach the steps that go by them, as they were set: the
/// executor, the pool, AURA, GRANDPA and telemetry are given what the
/// configuration says, whatever else it says.
pub proof fn law_settings_reach_their_steps(config: &Configuration)
    ensures
        config.telemetry_endpoints matches Some(servers) ==> (action_of(
            config,
            Step::CreateTelemetry,
        ) matches Action::CreateTelemetry { endpoints, .. } && endpoints == servers),
        action_of(config, Step::CreateExecutor) matches Action::CreateExecutor {
            wasm_method,
            heap_pages,
            max_runtime_instances,
            runtime_cache_size,
        } && wasm_method == config.wasm_method && heap_pages == config.default_heap_pages
            && max_runtime_instances == config.max_runtime_instances && runtime_cache_size
            == config.runtime_cache_size,
        action_of(config, Step::CreateTransactionPool) matches Action::CreateTransactionPool {
            options,
            ..
        } && options == config.transaction_pool,
        action_of(config, Step::StartAura) matches Action::StartAura { force_authoring, .. }
            && force_authoring == config.force_authoring,
        action_of(config, Step::ConfigureGrandpa) matches Action::ConfigureGrandpa {
            name,
            local_role,
            ..
        } && name@ == config.node_name@ && local_role == config.role,
{
}

/// The pool, the RPC extensions and GRANDPA take a node for an authority exactly
/// where it is one.
pub proof fn law_authorities_are_known_as_such(config: &Configuration)
    ensures
        action_of(config, Step::CreateTransactionPool) matches Action::CreateTransactionPool {
            is_authority,
            ..
        } && (is_authority <==> config.role is Authority),
        action_of(config, Step::BuildRpcExtensions) matches Action::BuildRpcExtensions {
            is_authority,
            ..
        } && (is_authority <==> config.role is Authority),
        action_of(config, Step::ConfigureGrandpa) matches Action::ConfigureGrandpa {
            keystore,
            local_role,
            ..
        } && (keystore <==> config.role is Authority) && (local_role is Authority
            <==> config.role is Authority),
{
}

/// Where there is a Prometheus registry, all that is measured is given it, and
/// where there is none, nothing is.
pub proof fn law_registry_reaches_all_that_is_measured(config: &Configuration)
    ensures
        action_of(config, Step::CreateTransactionPool) matches Action::CreateTransactionPool {
            prometheus_registry,
            ..
        } && prometheus_registry == config.prometheus,
        action_of(config, Step::BuildImportQueue) matches Action::BuildImportQueue {
            prometheus_registry,
            ..
        } && prometheus_registry == config.prometheus,
        action_of(config, Step::CacheEthBlocks) matches Action::CacheEthBlocks {
            prometheus_registry,
            ..
        } && prometheus_registry == config.prometheus,
        action_of(config, Step::CreateProposerFactory) matches Action::CreateProposerFactory {
            prometheus_registry,
            ..
        } && prometheus_registry == config.prometheus,
        action_of(config, Step::RunGrandpaVoter) matches Action::RunGrandpaVoter {
            prometheus_registry,
            ..
        } && prometheus_registry == config.prometheus,
{
}

/// All that reports telemetry is given a handle exactly where the configuration
/// lists a server.
pub proof fn law_handles_are_given_where_a_server_is_listed(config: &Configuration)
    ensures
        ({
            let listed = config.telemetry_endpoints matches Some(servers) && servers@.len() > 0;
            &&& action_of(config, Step::BuildFullParts) matches Action::BuildFullParts { telemetry }
                && telemetry == listed
            &&& action_of(config, Step::ImportGrandpaBlocks) matches Action::ImportGrandpaBlocks {
                telemetry,
            } && telemetry == listed
            &&& action_of(config, Step::BuildImportQueue) matches Action::BuildImportQueue {
                telemetry,
                ..
            } && telemetry == listed
            &&& action_of(config, Step::SpawnServiceTasks) matches Action::SpawnServiceTasks {
                telemetry,
            } && telemetry == listed
            &&& action_of(
                config,
                Step::CreateProposerFactory,
            ) matches Action::CreateProposerFactory { telemetry, .. } && telemetry == listed
            &&& action_of(config, Step::StartAura) matches Action::StartAura { telemetry, .. }
                && telemetry == listed
            &&& action_of(config, Step::ConfigureGrandpa) matches Action::ConfigureGrandpa {
                telemetry,
                ..
            } && telemetry == listed
            &&& action_of(config, Step::RunGrandpaVoter) matches Action::RunGrandpaVoter {
                telemetry,
                ..
            } && telemetry == listed
        }),
{
}

/// The figures of a node are the same whatever its configuration: how much is
/// buffered, cached and returned, how often GRANDPA gossips and justifies, and
/// that proposing takes two thirds of a slot.
pub proof fn law_figures_are_the_same_for_every_node(config: &Configuration)
    ensures
        action_of(config, Step::CreateTelemetry) matches Action::CreateTelemetry {
            buffer_size,
            ..
        } && buffer_size == 16,
        action_of(config, Step::CreateEthCaches) matches Action::CreateEthCaches {
            fee_history_limit,
            ..
        } && fee_history_limit == 100_000,
        action_of(config, Step::CacheEthBlocks) matches Action::CacheEthBlocks {
            blocks_cache_size,
            statuses_cache_size,
            ..
        } && blocks_cache_size == 50 && statuses_cache_size == 50,
        action_of(config, Step::BuildRpcExtensions) matches Action::BuildRpcExtensions {
            max_past_logs,
            fee_history_limit,
            ..
        } && max_past_logs == 1_000 && fee_history_limit == 100_000,
        action_of(config, Step::SpawnFrontierTasks) matches Action::SpawnFrontierTasks {
            fee_history_limit,
            ..
        } && fee_history_limit == 100_000,
        action_of(config, Step::StartAura) matches Action::StartAura {
            block_proposal_slot_portion,
            ..
        } && block_proposal_slot_portion.numerator == 2 && block_proposal_slot_portion.denominator
            == 3,
        action_of(config, Step::ConfigureGrandpa) matches Action::ConfigureGrandpa {
            gossip_duration_millis,
            justification_period,
            ..
        } && gossip_duration_millis == 333 && justification_period == 512,
{
}

/// What no configuration changes: filters are kept, the network syncs by warp
/// proofs without hard forks and validates no announcements, the development
/// signer is there, authoring neither backs off nor is bounded, and GRANDPA does
/// not merely observe.
pub proof fn law_choices_are_the_same_for_every_node(config: &Configuration)
    ensures
        action_of(config, Step::CreateEthCaches) matches Action::CreateEthCaches {
            filter_pool,
            ..
        } && filter_pool,
        action_of(config, Step::SpawnFrontierTasks) matches Action::SpawnFrontierTasks {
            filter_pool,
            ..
        } && filter_pool,
        action_of(config, Step::ProvideWarpSync) matches Action::ProvideWarpSync { hard_forks }
            && !hard_forks,
        action_of(config, Step::BuildNetwork) matches Action::BuildNetwork {
            block_announce_validator,
            warp_sync,
            ..
        } && !block_announce_validator && warp_sync,
        action_of(config, Step::BuildRpcExtensions) matches Action::BuildRpcExtensions {
            enable_dev_signer,
            ..
        } && enable_dev_signer,
        action_of(config, Step::StartAura) matches Action::StartAura {
            backoff_authoring_blocks,
            max_block_proposal_slot_portion,
            ..
        } && !backoff_authoring_blocks && max_block_proposal_slot_portion is None,
        action_of(config, Step::ConfigureGrandpa) matches Action::ConfigureGrandpa {
            observer_enabled,
            ..
        } && !observer_enabled,
{
}

/// Authoring and voting run as blocking tasks that the node goes down with; the
/// telemetry worker runs beside the node. They go by their names, and authoring
/// by its group.
pub proof fn law_consensus_runs_in_essential_tasks(config: &Configuration)
    ensures
        action_of(config, Step::SpawnTelemetryWorker) matches Action::SpawnTelemetryWorker { task }
            && task.name@ == "telemetry"@ && task.group is None && !task.essential
            && !task.blocking,
        action_of(config, Step::SpawnAura) matches Action::SpawnAura { task } && task.name@
            == "aura"@ && (task.group matches Some(group) && group@ == "block-authoring"@)
            && task.essential && task.blocking,
        action_of(config, Step::SpawnGrandpaVoter) matches Action::SpawnGrandpaVoter { task }
            && task.name@ == "grandpa-voter"@ && task.group is None && task.essential
            && task.blocking,
{
}

/// The Frontier database is opened as it was found, unless the database of the
/// chain is a custom one; that keeps this one step from being taken and no other.
pub proof fn law_frontier_database_is_opened_as_found(config: &Configuration, step: Step)
    ensures
        config.database !is Custom ==> (action_of(
            config,
            Step::OpenFrontierBackend,
        ) matches Action::OpenFrontierBackend { database } && frontier_database(config) == Some(
            database,
        )),
        is_refused(config, step) <==> step is OpenFrontierBackend && config.database is Custom,
{
}

/// What is done in a step depends on nothing but the settings of that step:
/// executor and pool go by their options, the database by its kind and place,
/// authoring by whether it is forced, voting by the name of the node. All else
/// goes by the role, the telemetry servers and the registry.
pub proof fn law_actions_depend_on_their_settings<'a>(
    left: &'a Configuration,
    right: &'a Configuration,
    step: Step,
)
    requires
        left.role == right.role,
        left.prometheus == right.prometheus,
        left.telemetry_endpoints == right.telemetry_endpoints,
        step is CreateExecutor ==> left.wasm_method == right.wasm_method && left.default_heap_pages
            == right.default_heap_pages && left.max_runtime_instances == right.max_runtime_instances
            && left.runtime_cache_size == right.runtime_cache_size,
        step is CreateTransactionPool ==> left.transaction_pool == right.transaction_pool,
        step is OpenFrontierBackend ==> left.database == right.database && left.base_path
            == right.base_path && left.chain_id == right.chain_id && left.executable_name
            == right.executable_name,
        step is StartAura ==> left.force_authoring == right.force_authoring,
        step is ConfigureGrandpa ==> left.node_name == right.node_name,
    ensures
        action_of(left, step) == action_of(right, step),
{
}

/// Asked for any step but that of the Frontier database, the action is there and
/// of that step; the database is refused where the chain keeps a custom one, and
/// for the given reason.
pub proof fn law_action_is_there<'a>(
    config: &'a Configuration,
    step: Step,
    r: Result<Action<'a>, String>,
)
    requires
        call_ensures(action, (config, step), r),
    ensures
        r is Err <==> step is OpenFrontierBackend && config.database is Custom,
        r matches Ok(action) ==> action == action_of(config, step),
        r matches Err(reason) ==> reason@
            == "Supported db sources: `rocksdb` | `paritydb` | `auto`"@,
{
}

/// AURA authors blocks while the node is offline exactly where that is forced.
pub proof fn law_authoring_is_forced_only_if_asked<'a>(
    config: &'a Configuration,
    r: Result<Action<'a>, String>,
)
    requires
        call_ensures(action, (config, Step::StartAura), r),
    ensures
        r matches Ok(Action::StartAura { force_authoring, .. }) && force_authoring
            == config.force_authoring,
{
}

} // verus!
