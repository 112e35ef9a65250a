//! The steps of the start of a node.
//!
//! The steps stand in a fixed order. The configuration decides which of them
//! are wanted; those make up the plan of the start.

use vstd::prelude::*;

use crate::service::config::{Configuration, Role};

verus! {

/// A step of the start of a node.
#[derive(Debug, Clone, Copy, PartialEq, Eq, Structural)]
pub enum Step {
    /// Creates the telemetry worker and a telemetry for the node.
    CreateTelemetry,
    /// Creates the executor of the runtime.
    CreateExecutor,
    /// Builds the client, its backend, the keystore and the task manager.
    BuildFullParts,
    /// Spawns the telemetry worker.
    SpawnTelemetryWorker,
    /// Selects the longest chain as the best one.
    SelectLongestChain,
    /// Creates the transaction pool.
    CreateTransactionPool,
    /// Opens the Frontier database.
    OpenFrontierBackend,
    /// Creates the filter pool and the fee history.
    CreateEthCaches,
    /// Puts GRANDPA in front of the import of blocks.
    ImportGrandpaBlocks,
    /// Puts Frontier in front of GRANDPA.
    ImportFrontierBlocks,
    /// Reads the slot duration for the blocks that are imported.
    ReadSlotDuration,
    /// Builds the queue of blocks to import.
    BuildImportQueue,
    /// Finds the name of the GRANDPA protocol of the chain.
    NameGrandpaProtocol,
    /// Adds the GRANDPA peers to the network configuration.
    AddGrandpaPeersSet,
    /// Provides proofs for warp sync.
    ProvideWarpSync,
    /// Builds the network.
    BuildNetwork,
    /// Builds the off-chain workers.
    BuildOffchainWorkers,
    /// Creates the cache of Ethereum block data.
    CacheEthBlocks,
    /// Builds the RPC extensions.
    BuildRpcExtensions,
    /// Spawns the tasks of the service.
    SpawnServiceTasks,
    /// Spawns the Frontier tasks.
    SpawnFrontierTasks,
    /// Creates the factory of block proposers.
    CreateProposerFactory,
    /// Reads the slot duration for the blocks that are authored.
    ReadAuthoringSlotDuration,
    /// Starts AURA.
    StartAura,
    /// Spawns the AURA task.
    SpawnAura,
    /// Configures GRANDPA.
    ConfigureGrandpa,
    /// Sets the GRANDPA voter up.
    RunGrandpaVoter,
    /// Spawns the GRANDPA voter.
    SpawnGrandpaVoter,
    /// Starts the network.
    StartNetwork,
}

/// How many steps there are.
pub const STEPS: usize = 29;

/// How many of them build the components that a full node and the commands
/// that work on its chain have in common.
pub const PARTIAL_STEPS: usize = 12;

/// All steps, in their order.
pub const ORDER: [Step; 29] = [
    Step::CreateTelemetry,
    Step::CreateExecutor,
    Step::BuildFullParts,
    Step::SpawnTelemetryWorker,
    Step::SelectLongestChain,
    Step::CreateTransactionPool,
    Step::OpenFrontierBackend,
    Step::CreateEthCaches,
    Step::ImportGrandpaBlocks,
    Step::ImportFrontierBlocks,
    Step::ReadSlotDuration,
    Step::BuildImportQueue,
    Step::NameGrandpaProtocol,
    Step::AddGrandpaPeersSet,
    Step::ProvideWarpSync,
    Step::BuildNetwork,
    Step::BuildOffchainWorkers,
    Step::CacheEthBlocks,
    Step::BuildRpcExtensions,
    Step::SpawnServiceTasks,
    Step::SpawnFrontierTasks,
    Step::CreateProposerFactory,
    Step::ReadAuthoringSlotDuration,
    Step::StartAura,
    Step::SpawnAura,
    Step::ConfigureGrandpa,
    Step::RunGrandpaVoter,
    Step::SpawnGrandpaVoter,
    Step::StartNetwork,
];

/// Whether a step is part of the start of a node.
pub open spec fn is_wanted(config: &Configuration, step: Step) -> bool {
    match step {
        Step::CreateTelemetry | Step::SpawnTelemetryWorker => config.reports_telemetry(),
        Step::BuildOffchainWorkers => config.offchain_worker,
        Step::CreateProposerFactory
        | Step::ReadAuthoringSlotDuration
        | Step::StartAura
        | Step::SpawnAura => config.role == Role::Authority,
        Step::RunGrandpaVoter | Step::SpawnGrandpaVoter => !config.disable_grandpa,
        _ => true,
    }
}

/// The wanted steps among those from the one numbered `from` up to, and
/// without, the one numbered `to`.
pub open spec fn wanted_steps(config: &Configuration, from: int, to: int) -> Seq<Step>
    decreases to - from,
{
    if from >= to {
        seq![]
    } else if is_wanted(config, ORDER@[from]) {
        seq![ORDER@[from]] + wanted_steps(config, from + 1, to)
    } else {
        wanted_steps(config, from + 1, to)
    }
}

/// The plan that builds the components of a node.
pub open spec fn partial_plan(config: &Configuration) -> Seq<Step> {
    wanted_steps(config, 0, PARTIAL_STEPS as int)
}

/// The plan that starts a full node.
pub open spec fn full_plan(config: &Configuration) -> Seq<Step> {
    wanted_steps(config, 0, STEPS as int)
}

/// Whether a step is part of the start of a node.
pub fn wants(config: &Configuration, step: Step) -> (wanted: bool)
    ensures
        wanted == is_wanted(config, step),
{
    match step {
        Step::CreateTelemetry | Step::SpawnTelemetryWorker => config.telemetry().is_some(),
        Step::BuildOffchainWorkers => config.offchain_worker,
        Step::CreateProposerFactory
        | Step::ReadAuthoringSlotDuration
        | Step::StartAura
        | Step::SpawnAura => config.role.is_authority(),
        Step::RunGrandpaVoter | Step::SpawnGrandpaVoter => !config.disable_grandpa,
        _ => true,
    }
}

/// The first wanted step from the one numbered `from` on, or `to`.
pub(crate) fn first_wanted(config: &Configuration, from: usize, to: usize) -> (at: usize)
    requires
        from <= to <= STEPS,
    ensures
        from <= at <= to,
        at < to ==> is_wanted(config, ORDER@[at as int]),
        wanted_steps(config, from as int, to as int) == wanted_steps(config, at as int, to as int),
{
    let mut at: usize = from;
    while at < to && !wants(config, ORDER[at])
        invariant
            from <= at <= to <= STEPS,
            wanted_steps(config, from as int, to as int) == wanted_steps(
                config,
                at as int,
                to as int,
            ),
        decreases to - at,
    {
        at = at + 1;
    }
    at
}

/// Asked of a step, the answer goes by the one setting that the step is left to,
/// and of a step that is left to none, it is always yes.
pub proof fn law_wants_answers_by_the_setting(config: &Configuration, step: Step, wanted: bool)
    requires
        call_ensures(wants, (config, step), wanted),
    ensures
        step is CreateTelemetry || step is SpawnTelemetryWorker ==> (wanted <==> (
        config.telemetry_endpoints matches Some(servers) && servers@.len() > 0)),
        step is BuildOffchainWorkers ==> wanted == config.offchain_worker,
        step is CreateProposerFactory || step is ReadAuthoringSlotDuration || step is StartAura
            || step is SpawnAura ==> (wanted <==> config.role is Authority),
        step is RunGrandpaVoter || step is SpawnGrandpaVoter ==> wanted == !config.disable_grandpa,
        !wanted ==> step is CreateTelemetry || step is SpawnTelemetryWorker
            || step is BuildOffchainWorkers || step is CreateProposerFactory
            || step is ReadAuthoringSlotDuration || step is StartAura || step is SpawnAura
            || step is RunGrandpaVoter || step is SpawnGrandpaVoter,
{
}

} // verus!
