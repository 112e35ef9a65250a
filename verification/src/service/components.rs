//! The components of a node: which step makes each of them, and which steps
//! work with it.

use vstd::prelude::*;

use crate::service::config::{Configuration, Role};
use crate::service::steps::Step;

verus! {

/// A component of a node.
#[derive(Debug, Clone, Copy, PartialEq, Eq, Structural)]
pub enum Component {
    TelemetryWorker,
    Telemetry,
    Executor,
    Client,
    Backend,
    Keystore,
    TaskManager,
    SelectChain,
    TransactionPool,
    FrontierBackend,
    FilterPool,
    FeeHistory,
    GrandpaImport,
    GrandpaLink,
    BlockImport,
    SlotDuration,
    ImportQueue,
    GrandpaProtocolName,
    /// The configuration that the node was given, with the peers set of GRANDPA
    /// added behind its extra sets and nothing else changed.
    GrandpaPeersSet,
    WarpSync,
    Network,
    SystemRpc,
    NetworkStarter,
    Overrides,
    BlockDataCache,
    RpcExtensions,
    ProposerFactory,
    AuthoringSlotDuration,
    Aura,
    GrandpaConfig,
    GrandpaVoter,
}

/// The step that makes a component.
pub open spec fn maker(component: Component) -> Step {
    match component {
        Component::TelemetryWorker | Component::Telemetry => Step::CreateTelemetry,
        Component::Executor => Step::CreateExecutor,
        Component::Client
        | Component::Backend
        | Component::Keystore
        | Component::TaskManager => Step::BuildFullParts,
        Component::SelectChain => Step::SelectLongestChain,
        Component::TransactionPool => Step::CreateTransactionPool,
        Component::FrontierBackend => Step::OpenFrontierBackend,
        Component::FilterPool | Component::FeeHistory => Step::CreateEthCaches,
        Component::GrandpaImport | Component::GrandpaLink => Step::ImportGrandpaBlocks,
        Component::BlockImport => Step::ImportFrontierBlocks,
        Component::SlotDuration => Step::ReadSlotDuration,
        Component::ImportQueue => Step::BuildImportQueue,
        Component::GrandpaProtocolName => Step::NameGrandpaProtocol,
        Component::GrandpaPeersSet => Step::AddGrandpaPeersSet,
        Component::WarpSync => Step::ProvideWarpSync,
        Component::Network
        | Component::SystemRpc
        | Component::NetworkStarter => Step::BuildNetwork,
        Component::Overrides | Component::BlockDataCache => Step::CacheEthBlocks,
        Component::RpcExtensions => Step::BuildRpcExtensions,
        Component::ProposerFactory => Step::CreateProposerFactory,
        Component::AuthoringSlotDuration => Step::ReadAuthoringSlotDuration,
        Component::Aura => Step::StartAura,
        Component::GrandpaConfig => Step::ConfigureGrandpa,
        Component::GrandpaVoter => Step::RunGrandpaVoter,
    }
}

/// Whether a step works with a component. Telemetry is worked with where it is
/// reported, and GRANDPA takes the keystore of an authority alone.
pub open spec fn works_with(config: &Configuration, step: Step, component: Component) -> bool {
    match component {
        Component::TelemetryWorker => step is SpawnTelemetryWorker,
        Component::Telemetry => config.reports_telemetry() && (step is BuildFullParts
            || step is ImportGrandpaBlocks || step is BuildImportQueue || step is SpawnServiceTasks
            || step is CreateProposerFactory || step is StartAura || step is ConfigureGrandpa
            || step is RunGrandpaVoter),
        Component::Executor => step is BuildFullParts,
        Component::Client => step is CreateTransactionPool || step is ImportGrandpaBlocks
            || step is ImportFrontierBlocks || step is ReadSlotDuration || step is BuildImportQueue
            || step is NameGrandpaProtocol || step is BuildNetwork || step is BuildOffchainWorkers
            || step is CacheEthBlocks || step is BuildRpcExtensions || step is SpawnServiceTasks
            || step is SpawnFrontierTasks || step is CreateProposerFactory
            || step is ReadAuthoringSlotDuration || step is StartAura,
        Component::Backend => step is SelectLongestChain || step is ProvideWarpSync
            || step is SpawnServiceTasks || step is SpawnFrontierTasks,
        Component::Keystore => step is SpawnServiceTasks || step is StartAura || (
        step is ConfigureGrandpa && config.role == Role::Authority),
        Component::TaskManager => step is SpawnTelemetryWorker || step is CreateTransactionPool
            || step is BuildImportQueue || step is BuildNetwork || step is BuildOffchainWorkers
            || step is CacheEthBlocks || step is BuildRpcExtensions || step is SpawnServiceTasks
            || step is SpawnFrontierTasks || step is CreateProposerFactory || step is SpawnAura
            || step is SpawnGrandpaVoter,
        Component::SelectChain => step is ImportGrandpaBlocks || step is StartAura,
        Component::TransactionPool => step is BuildNetwork || step is BuildRpcExtensions
            || step is SpawnServiceTasks || step is CreateProposerFactory,
        Component::FrontierBackend => step is ImportFrontierBlocks || step is BuildRpcExtensions
            || step is SpawnFrontierTasks,
        Component::FilterPool | Component::FeeHistory => step is BuildRpcExtensions
            || step is SpawnFrontierTasks,
        Component::GrandpaImport => step is ImportFrontierBlocks || step is BuildImportQueue,
        Component::GrandpaLink => step is ProvideWarpSync || step is RunGrandpaVoter,
        Component::BlockImport => step is BuildImportQueue || step is StartAura,
        Component::SlotDuration => step is BuildImportQueue,
        Component::ImportQueue => step is BuildNetwork,
        Component::GrandpaProtocolName => step is AddGrandpaPeersSet || step is ConfigureGrandpa,
        Component::GrandpaPeersSet => step is BuildNetwork || step is BuildOffchainWorkers
            || step is SpawnServiceTasks,
        Component::WarpSync => step is BuildNetwork,
        Component::Network => step is BuildOffchainWorkers || step is BuildRpcExtensions
            || step is SpawnServiceTasks || step is StartAura || step is RunGrandpaVoter,
        Component::SystemRpc => step is SpawnServiceTasks,
        Component::NetworkStarter => step is StartNetwork,
        Component::Overrides => step is BuildRpcExtensions || step is SpawnFrontierTasks,
        Component::BlockDataCache => step is BuildRpcExtensions,
        Component::RpcExtensions => step is SpawnServiceTasks,
        Component::ProposerFactory | Component::AuthoringSlotDuration => step is StartAura,
        Component::Aura => step is SpawnAura,
        Component::GrandpaConfig => step is RunGrandpaVoter,
        Component::GrandpaVoter => step is SpawnGrandpaVoter,
    }
}

/// Whether a component is handed over once the components of a node are built.
pub open spec fn is_partial_component(component: Component) -> bool {
    match component {
        Component::Client
        | Component::Backend
        | Component::TaskManager
        | Component::ImportQueue
        | Component::Keystore
        | Component::SelectChain
        | Component::TransactionPool
        | Component::BlockImport
        | Component::GrandpaLink
        | Component::FrontierBackend
        | Component::FilterPool
        | Component::FeeHistory => true,
        _ => false,
    }
}

/// The step that makes a component.
pub fn made_in(component: Component) -> (step: Step)
    ensures
        step == maker(component),
{
    match component {
        Component::TelemetryWorker | Component::Telemetry => Step::CreateTelemetry,
        Component::Executor => Step::CreateExecutor,
        Component::Client
        | Component::Backend
        | Component::Keystore
        | Component::TaskManager => Step::BuildFullParts,
        Component::SelectChain => Step::SelectLongestChain,
        Component::TransactionPool => Step::CreateTransactionPool,
        Component::FrontierBackend => Step::OpenFrontierBackend,
        Component::FilterPool | Component::FeeHistory => Step::CreateEthCaches,
        Component::GrandpaImport | Component::GrandpaLink => Step::ImportGrandpaBlocks,
        Component::BlockImport => Step::ImportFrontierBlocks,
        Component::SlotDuration => Step::ReadSlotDuration,
        Component::ImportQueue => Step::BuildImportQueue,
        Component::GrandpaProtocolName => Step::NameGrandpaProtocol,
        Component::GrandpaPeersSet => Step::AddGrandpaPeersSet,
        Component::WarpSync => Step::ProvideWarpSync,
        Component::Network
        | Component::SystemRpc
        | Component::NetworkStarter => Step::BuildNetwork,
        Component::Overrides | Component::BlockDataCache => Step::CacheEthBlocks,
        Component::RpcExtensions => Step::BuildRpcExtensions,
        Component::ProposerFactory => Step::CreateProposerFactory,
        Component::AuthoringSlotDuration => Step::ReadAuthoringSlotDuration,
        Component::Aura => Step::StartAura,
        Component::GrandpaConfig => Step::ConfigureGrandpa,
        Component::GrandpaVoter => Step::RunGrandpaVoter,
    }
}

/// Whether a component is handed over to a step. What is not handed over, the
/// step does not work with.
pub fn hands_over(config: &Configuration, step: Step, component: Component) -> (handed_over: bool)
    ensures
        handed_over == works_with(config, step, component),
{
    let telemetry = config.telemetry().is_some();
    match step {
        Step::CreateTelemetry
        | Step::CreateExecutor
        | Step::OpenFrontierBackend
        | Step::CreateEthCaches => false,
        Step::BuildFullParts => match component {
            Component::Executor => true,
            Component::Telemetry => telemetry,
            _ => false,
        },
        Step::SpawnTelemetryWorker => matches!(
            component,
            Component::TelemetryWorker | Component::TaskManager
        ),
        Step::SelectLongestChain => matches!(component, Component::Backend),
        Step::CreateTransactionPool => matches!(
            component,
            Component::TaskManager | Component::Client
        ),
        Step::ImportGrandpaBlocks => match component {
            Component::Client | Component::SelectChain => true,
            Component::Telemetry => telemetry,
            _ => false,
        },
        Step::ImportFrontierBlocks => matches!(
            component,
            Component::GrandpaImport | Component::Client | Component::FrontierBackend
        ),
        Step::ReadSlotDuration
        | Step::NameGrandpaProtocol
        | Step::ReadAuthoringSlotDuration => matches!(component, Component::Client),
        Step::BuildImportQueue => match component {
            Component::BlockImport
            | Component::GrandpaImport
            | Component::Client
            | Component::SlotDuration
            | Component::TaskManager => true,
            Component::Telemetry => telemetry,
            _ => false,
        },
        Step::AddGrandpaPeersSet => matches!(component, Component::GrandpaProtocolName),
        Step::ProvideWarpSync => matches!(component, Component::Backend | Component::GrandpaLink),
        Step::BuildNetwork => matches!(
            component,
            Component::GrandpaPeersSet
                | Component::Client
                | Component::TransactionPool
                | Component::TaskManager
                | Component::ImportQueue
                | Component::WarpSync
        ),
        Step::BuildOffchainWorkers => matches!(
            component,
            Component::GrandpaPeersSet
                | Component::TaskManager
                | Component::Client
                | Component::Network
        ),
        Step::CacheEthBlocks => matches!(component, Component::Client | Component::TaskManager),
        Step::BuildRpcExtensions => matches!(
            component,
            Component::Client
                | Component::TransactionPool
                | Component::Network
                | Component::FilterPool
                | Component::FrontierBackend
                | Component::Overrides
                | Component::FeeHistory
                | Component::BlockDataCache
                | Component::TaskManager
        ),
        Step::SpawnServiceTasks => match component {
            Component::Network
            | Component::Client
            | Component::Keystore
            | Component::TaskManager
            | Component::TransactionPool
            | Component::RpcExtensions
            | Component::Backend
            | Component::SystemRpc
            | Component::GrandpaPeersSet => true,
            Component::Telemetry => telemetry,
            _ => false,
        },
        Step::SpawnFrontierTasks => matches!(
            component,
            Component::TaskManager
                | Component::Client
                | Component::Backend
                | Component::FrontierBackend
                | Component::FilterPool
                | Component::Overrides
                | Component::FeeHistory
        ),
        Step::CreateProposerFactory => match component {
            Component::TaskManager | Component::Client | Component::TransactionPool => true,
            Component::Telemetry => telemetry,
            _ => false,
        },
        Step::StartAura => match component {
            Component::AuthoringSlotDuration
            | Component::Client
            | Component::SelectChain
            | Component::BlockImport
            | Component::ProposerFactory
            | Component::Keystore
            | Component::Network => true,
            Component::Telemetry => telemetry,
            _ => false,
        },
        Step::SpawnAura => matches!(component, Component::TaskManager | Component::Aura),
        Step::ConfigureGrandpa => match component {
            Component::GrandpaProtocolName => true,
            Component::Keystore => config.role.is_authority(),
            Component::Telemetry => telemetry,
            _ => false,
        },
        Step::RunGrandpaVoter => match component {
            Component::GrandpaConfig | Component::GrandpaLink | Component::Network => true,
            Component::Telemetry => telemetry,
            _ => false,
        },
        Step::SpawnGrandpaVoter => matches!(
            component,
            Component::TaskManager | Component::GrandpaVoter
        ),
        Step::StartNetwork => matches!(component, Component::NetworkStarter),
    }
}

/// The components of a node are built on its client and backend. The first ones
/// are built from the configuration alone, and so are the Frontier database and
/// the Ethereum caches. What spawns tasks is handed the task manager. What else a
/// step may work with, it is not handed; of telemetry, another law speaks.
pub proof fn law_parts_are_built_on_the_client(config: &Configuration, component: Component)
    requires
        !(component is Telemetry),
    ensures
        !works_with(config, Step::CreateTelemetry, component),
        !works_with(config, Step::CreateExecutor, component),
        !works_with(config, Step::OpenFrontierBackend, component),
        !works_with(config, Step::CreateEthCaches, component),
        works_with(config, Step::BuildFullParts, component) <==> component is Executor,
        works_with(config, Step::SpawnTelemetryWorker, component) <==> component is TelemetryWorker
            || component is TaskManager,
        works_with(config, Step::SelectLongestChain, component) <==> component is Backend,
        works_with(config, Step::CreateTransactionPool, component) <==> component is Client
            || component is TaskManager,
        works_with(config, Step::ImportGrandpaBlocks, component) <==> component is Client
            || component is SelectChain,
        works_with(config, Step::ImportFrontierBlocks, component) <==> component is GrandpaImport
            || component is Client || component is FrontierBackend,
        works_with(config, Step::ReadSlotDuration, component) <==> component is Client,
        works_with(config, Step::BuildImportQueue, component) <==> component is BlockImport
            || component is GrandpaImport || component is Client || component is SlotDuration
            || component is TaskManager,
{
}

/// The network serves the client, the transaction pool and the import queue, syncs
/// by warp proofs from the backend and the authorities of GRANDPA, and knows the
/// peers of GRANDPA by the name of its protocol. Off-chain workers work on the
/// network. In the end, the network is started by its own starter.
        pub proof fn law_network_is_built_on_the_pool_and_the_queue(config: &Configuration, component: Component)
    requires
        !(component is Telemetry),
    ensures
        works_with(config, Step::NameGrandpaProtocol, component) <==> component is Client,
        works_with(config, Step::AddGrandpaPeersSet, component) <==> component is GrandpaProtocolName,
        works_with(config, Step::ProvideWarpSync, component) <==> component is Backend
            || component is GrandpaLink,
        works_with(config, Step::BuildNetwork, component) <==> component is GrandpaPeersSet
            || component is Client || component is TransactionPool || component is TaskManager
            || component is ImportQueue || component is WarpSync,
        works_with(config, Step::BuildOffchainWorkers, component) <==> component is GrandpaPeersSet
            || component is TaskManager || component is Client || component is Network,
        works_with(config, Step::StartNetwork, component) <==> component is NetworkStarter,
{
}

/// The RPC extensions, the tasks of the service and the Frontier tasks work on the
/// client, the pool, the network, the databases and the caches of the node. The
/// service tasks are handed the keystore as well.
pub proof fn law_services_share_the_parts_of_the_node(config: &Configuration, component: Component)
    requires
        !(component is Telemetry),
    ensures
        works_with(config, Step::CacheEthBlocks, component) <==> component is Client
            || component is TaskManager,
        works_with(config, Step::BuildRpcExtensions, component) <==> component is Client
            || component is TransactionPool || component is Network || component is FilterPool
            || component is FrontierBackend || component is FeeHistory || component is Overrides
            || component is BlockDataCache || component is TaskManager,
        works_with(config, Step::SpawnServiceTasks, component) <==> component is Network
            || component is Client || component is Keystore || component is TaskManager
            || component is TransactionPool || component is RpcExtensions || component is Backend
            || component is SystemRpc || component is GrandpaPeersSet,
        works_with(config, Step::SpawnFrontierTasks, component) <==> component is TaskManager
            || component is Client || component is Backend || component is FrontierBackend
            || component is FilterPool || component is Overrides || component is FeeHistory,
{
}

/// An author proposes blocks from the transaction pool, on the best chain and by
/// the slot duration of authoring, signs them by the keystore, and imports them
/// like any other block.
pub proof fn law_authors_sign_by_the_keystore(config: &Configuration, component: Component)
    requires
        !(component is Telemetry),
    ensures
        works_with(config, Step::CreateProposerFactory, component) <==> component is TaskManager
            || component is Client || component is TransactionPool,
        works_with(config, Step::ReadAuthoringSlotDuration, component) <==> component is Client,
        works_with(config, Step::StartAura, component) <==> component is AuthoringSlotDuration
            || component is Client || component is SelectChain || component is BlockImport
            || component is ProposerFactory || component is Keystore || component is Network,
        works_with(config, Step::SpawnAura, component) <==> component is TaskManager
            || component is Aura,
{
}

/// The voter of GRANDPA goes by the protocol name, votes over the network with the
/// link to the import of its blocks, and is spawned as a task. Only an authority
/// gives it the keystore to sign votes by.
pub proof fn law_authorities_sign_votes_by_the_keystore(
    config: &Configuration,
    component: Component,
)
    requires
        !(component is Telemetry),
    ensures
        works_with(config, Step::ConfigureGrandpa, component) <==> component is GrandpaProtocolName
            || component is Keystore && config.role is Authority,
        works_with(config, Step::RunGrandpaVoter, component) <==> component is GrandpaConfig
            || component is GrandpaLink || component is Network,
        works_with(config, Step::SpawnGrandpaVoter, component) <==> component is GrandpaVoter
            || component is TaskManager,
{
}

/// Where a telemetry server is listed, whoever builds, imports, serves, authors
/// or votes reports to it, and nobody else does. Where none is listed, nobody
/// reports.
pub proof fn law_those_at_work_report_telemetry(config: &Configuration, step: Step)
    ensures
        works_with(config, step, Component::Telemetry) <==> (
        config.telemetry_endpoints matches Some(servers) && servers@.len() > 0) && (
        step is BuildFullParts || step is ImportGrandpaBlocks || step is BuildImportQueue
            || step is SpawnServiceTasks || step is CreateProposerFactory || step is StartAura
            || step is ConfigureGrandpa || step is RunGrandpaVoter),
{
}

/// How a node is wired depends on nothing but its role and whether it reports
/// telemetry.
pub proof fn law_wiring_depends_on_role_and_telemetry(
    left: &Configuration,
    right: &Configuration,
    step: Step,
    component: Component,
)
    requires
        component is Keystore && step is ConfigureGrandpa ==> left.role == right.role,
        component is Telemetry ==> (left.telemetry_endpoints matches Some(servers) && servers@.len()
            > 0) == (right.telemetry_endpoints matches Some(servers) && servers@.len() > 0),
    ensures
        works_with(left, step, component) == works_with(right, step, component),
{
}

/// What each step leaves behind for the later ones: those that spawn or start
/// leave nothing.
pub proof fn law_steps_leave_their_components(component: Component)
    ensures
        maker(component) is CreateTelemetry <==> component is TelemetryWorker
            || component is Telemetry,
        maker(component) is CreateExecutor <==> component is Executor,
        maker(component) is BuildFullParts <==> component is Client || component is Backend
            || component is Keystore || component is TaskManager,
        maker(component) is SelectLongestChain <==> component is SelectChain,
        maker(component) is CreateTransactionPool <==> component is TransactionPool,
        maker(component) is OpenFrontierBackend <==> component is FrontierBackend,
        maker(component) is CreateEthCaches <==> component is FilterPool || component is FeeHistory,
        maker(component) is ImportGrandpaBlocks <==> component is GrandpaImport
            || component is GrandpaLink,
        maker(component) is ImportFrontierBlocks <==> component is BlockImport,
        maker(component) is ReadSlotDuration <==> component is SlotDuration,
        maker(component) is BuildImportQueue <==> component is ImportQueue,
        maker(component) is NameGrandpaProtocol <==> component is GrandpaProtocolName,
        maker(component) is AddGrandpaPeersSet <==> component is GrandpaPeersSet,
        maker(component) is ProvideWarpSync <==> component is WarpSync,
        maker(component) is BuildNetwork <==> component is Network || component is SystemRpc
            || component is NetworkStarter,
        maker(component) is CacheEthBlocks <==> component is Overrides
            || component is BlockDataCache,
        maker(component) is BuildRpcExtensions <==> component is RpcExtensions,
        maker(component) is CreateProposerFactory <==> component is ProposerFactory,
        maker(component) is ReadAuthoringSlotDuration <==> component is AuthoringSlotDuration,
        maker(component) is StartAura <==> component is Aura,
        maker(component) is ConfigureGrandpa <==> component is GrandpaConfig,
        maker(component) is RunGrandpaVoter <==> component is GrandpaVoter,
{
}

/// The twelve components that are handed over once they are built: all that are
/// built by then but those which went into others, and telemetry, which a node
/// need not have.
pub proof fn law_partial_components_are_what_is_left(component: Component)
    ensures
        is_partial_component(component) <==> component is Client || component is Backend
            || component is TaskManager || component is ImportQueue || component is Keystore
            || component is SelectChain || component is TransactionPool || component is BlockImport
            || component is GrandpaLink || component is FrontierBackend || component is FilterPool
            || component is FeeHistory,
{
}

/// The keystore is handed to the service tasks and to AURA on every node, to
/// GRANDPA on authorities, and to no other step.
pub proof fn law_keystore_is_handed_to_signers(
    config: &Configuration,
    step: Step,
    handed_over: bool,
)
    requires
        call_ensures(hands_over, (config, step, Component::Keystore), handed_over),
    ensures
        handed_over <==> step is SpawnServiceTasks || step is StartAura || (step is ConfigureGrandpa
            && config.role is Authority),
{
}

/// A step is handed exactly the components that it works with, and a component
/// comes from the step that makes it.
pub proof fn law_steps_are_handed_what_they_work_with(
    config: &Configuration,
    step: Step,
    component: Component,
    handed_over: bool,
    made: Step,
)
    requires
        call_ensures(hands_over, (config, step, component), handed_over),
        call_ensures(made_in, (component,), made),
    ensures
        handed_over <==> works_with(config, step, component),
        made == maker(component),
{
}

} // verus!
