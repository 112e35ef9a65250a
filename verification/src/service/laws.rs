//! What holds of every start of a node.

use vstd::prelude::*;

use crate::service::action::{
    action_of, is_refused, Action, SpawnHandle, FEE_HISTORY_CACHE_LIMIT,
};
use crate::service::components::{is_partial_component, maker, works_with, Component};
use crate::service::config::{Configuration, DatabaseSource, Role};
use crate::service::startup::{Outcome, Progress, StartupView};
use crate::service::steps::{
    full_plan, is_wanted, partial_plan, wanted_steps, Step, ORDER, PARTIAL_STEPS, STEPS,
};
use crate::service::tasks::{
    frontier_tasks, law_frontier_task_names_are_distinct, FrontierTask, Task,
};

verus! {

/// The place of a step in the order.
pub open spec fn rank(step: Step) -> int {
    match step {
        Step::CreateTelemetry => 0,
        Step::CreateExecutor => 1,
        Step::BuildFullParts => 2,
        Step::SpawnTelemetryWorker => 3,
        Step::SelectLongestChain => 4,
        Step::CreateTransactionPool => 5,
        Step::OpenFrontierBackend => 6,
        Step::CreateEthCaches => 7,
        Step::ImportGrandpaBlocks => 8,
        Step::ImportFrontierBlocks => 9,
        Step::ReadSlotDuration => 10,
        Step::BuildImportQueue => 11,
        Step::NameGrandpaProtocol => 12,
        Step::AddGrandpaPeersSet => 13,
        Step::ProvideWarpSync => 14,
        Step::BuildNetwork => 15,
        Step::BuildOffchainWorkers => 16,
        Step::CacheEthBlocks => 17,
        Step::BuildRpcExtensions => 18,
        Step::SpawnServiceTasks => 19,
        Step::SpawnFrontierTasks => 20,
        Step::CreateProposerFactory => 21,
        Step::ReadAuthoringSlotDuration => 22,
        Step::StartAura => 23,
        Step::SpawnAura => 24,
        Step::ConfigureGrandpa => 25,
        Step::RunGrandpaVoter => 26,
        Step::SpawnGrandpaVoter => 27,
        Step::StartNetwork => 28,
    }
}

/// Every step stands in the order once, at its rank.
pub proof fn law_order_holds_every_step_once(step: Step, i: int)
    ensures
        0 <= rank(step) < STEPS,
        ORDER@[rank(step)] == step,
        0 <= i < STEPS ==> rank(ORDER@[i]) == i,
{
}

/// The steps from `from` to `to` that are wanted are those whose rank lies
/// there, and they come by rank.
proof fn lemma_wanted_steps(config: &Configuration, from: int, to: int)
    requires
        0 <= from <= to <= STEPS,
    ensures
        forall|step: Step| #[trigger]
            wanted_steps(config, from, to).contains(step) <==> is_wanted(config, step) && from
                <= rank(step) < to,
        forall|i: int, j: int|
            0 <= i < j < wanted_steps(config, from, to).len() ==> rank(
                #[trigger] wanted_steps(config, from, to)[i],
            ) < rank(#[trigger] wanted_steps(config, from, to)[j]),
    decreases to - from,
{
    if from < to {
        let rest = wanted_steps(config, from + 1, to);
        let steps = wanted_steps(config, from, to);
        lemma_wanted_steps(config, from + 1, to);
        law_order_holds_every_step_once(ORDER@[from], from);
        assert forall|step: Step| #[trigger]
            steps.contains(step) <==> is_wanted(config, step) && from <= rank(step) < to by {
            law_order_holds_every_step_once(step, from);
            if is_wanted(config, ORDER@[from]) {
                if steps.contains(step) {
                    let i = steps.index_of(step);
                    if i > 0 {
                        assert(rest[i - 1] == step);
                        assert(rest.contains(step));
                    }
                }
                if rest.contains(step) {
                    let i = rest.index_of(step);
                    assert(steps[i + 1] == step);
                }
                if step == ORDER@[from] {
                    assert(steps[0] == step);
                }
            }
        }
        assert forall|i: int, j: int| 0 <= i < j < steps.len() implies rank(#[trigger] steps[i])
            < rank(#[trigger] steps[j]) by {
            if is_wanted(config, ORDER@[from]) {
                assert(steps[j] == rest[j - 1]);
                if i == 0 {
                    assert(rest.contains(rest[j - 1]));
                } else {
                    assert(steps[i] == rest[i - 1]);
                }
            }
        }
    }
}

proof fn lemma_wanted_steps_split(config: &Configuration, from: int, middle: int, to: int)
    requires
        0 <= from <= middle <= to,
    ensures
        wanted_steps(config, from, to) == wanted_steps(config, from, middle) + wanted_steps(
            config,
            middle,
            to,
        ),
    decreases middle - from,
{
    if from < middle {
        lemma_wanted_steps_split(config, from + 1, middle, to);
    }
    assert(wanted_steps(config, from, to) =~= wanted_steps(config, from, middle) + wanted_steps(
        config,
        middle,
        to,
    ));
}

/// A full node takes exactly the steps that its configuration wants; its
/// components are built by those among them that come before the protocol name
/// of GRANDPA is found.
pub proof fn law_plan_is_what_is_wanted(config: &Configuration, step: Step)
    ensures
        full_plan(config).contains(step) <==> is_wanted(config, step),
        partial_plan(config).contains(step) <==> is_wanted(config, step) && rank(step) < rank(
            Step::NameGrandpaProtocol,
        ),
{
    lemma_wanted_steps(config, 0, STEPS as int);
    lemma_wanted_steps(config, 0, PARTIAL_STEPS as int);
    law_order_holds_every_step_once(step, 0);
}

/// The steps are taken by rank, and so each at most once.
pub proof fn law_plan_keeps_the_order(config: &Configuration, i: int, j: int)
    requires
        0 <= i < j < full_plan(config).len(),
    ensures
        rank(full_plan(config)[i]) < rank(full_plan(config)[j]),
{
    lemma_wanted_steps(config, 0, STEPS as int);
}

/// Whatever the configuration says, a node builds its parts, opens its Frontier
/// database, imports blocks, joins the network, serves RPC, spawns the tasks of
/// the service and of Frontier, configures GRANDPA and starts the network. Only
/// telemetry, off-chain workers, authoring and voting are left to the
/// configuration.
pub proof fn law_every_node_takes_the_common_steps(config: &Configuration, step: Step)
    requires
        !(step is CreateTelemetry),
        !(step is SpawnTelemetryWorker),
        !(step is BuildOffchainWorkers),
        !(step is CreateProposerFactory),
        !(step is ReadAuthoringSlotDuration),
        !(step is StartAura),
        !(step is SpawnAura),
        !(step is RunGrandpaVoter),
        !(step is SpawnGrandpaVoter),
    ensures
        full_plan(config).contains(step),
        is_wanted(config, step),
{
    law_plan_is_what_is_wanted(config, step);
}

/// Each of the steps that are left to the configuration is taken exactly where
/// the setting that it goes by asks for it.
pub proof fn law_settings_decide_on_the_other_steps(config: &Configuration)
    ensures
        full_plan(config).contains(Step::CreateTelemetry) <==> (
        config.telemetry_endpoints matches Some(servers) && servers@.len() > 0),
        full_plan(config).contains(Step::SpawnTelemetryWorker) <==> (
        config.telemetry_endpoints matches Some(servers) && servers@.len() > 0),
        full_plan(config).contains(Step::BuildOffchainWorkers) <==> config.offchain_worker,
        full_plan(config).contains(Step::CreateProposerFactory) <==> config.role is Authority,
        full_plan(config).contains(Step::ReadAuthoringSlotDuration) <==> config.role is Authority,
        full_plan(config).contains(Step::StartAura) <==> config.role is Authority,
        full_plan(config).contains(Step::SpawnAura) <==> config.role is Authority,
        full_plan(config).contains(Step::RunGrandpaVoter) <==> !config.disable_grandpa,
        full_plan(config).contains(Step::SpawnGrandpaVoter) <==> !config.disable_grandpa,
{
    law_plan_is_what_is_wanted(config, Step::CreateTelemetry);
    law_plan_is_what_is_wanted(config, Step::SpawnTelemetryWorker);
    law_plan_is_what_is_wanted(config, Step::BuildOffchainWorkers);
    law_plan_is_what_is_wanted(config, Step::CreateProposerFactory);
    law_plan_is_what_is_wanted(config, Step::ReadAuthoringSlotDuration);
    law_plan_is_what_is_wanted(config, Step::StartAura);
    law_plan_is_what_is_wanted(config, Step::SpawnAura);
    law_plan_is_what_is_wanted(config, Step::RunGrandpaVoter);
    law_plan_is_what_is_wanted(config, Step::SpawnGrandpaVoter);
}

/// The components of a node are built from first to last in one row, with
/// telemetry around it where a server is listed.
pub proof fn law_components_are_built_in_one_row(config: &Configuration)
    ensures
        ({
            let telemetry = config.telemetry_endpoints matches Some(servers) && servers@.len() > 0;
            partial_plan(config) == (if telemetry {
                seq![Step::CreateTelemetry]
            } else {
                seq![]
            }) + seq![Step::CreateExecutor, Step::BuildFullParts] + (if telemetry {
                seq![Step::SpawnTelemetryWorker]
            } else {
                seq![]
            }) + seq![
                Step::SelectLongestChain,
                Step::CreateTransactionPool,
                Step::OpenFrontierBackend,
                Step::CreateEthCaches,
                Step::ImportGrandpaBlocks,
                Step::ImportFrontierBlocks,
                Step::ReadSlotDuration,
                Step::BuildImportQueue,
            ]
        }),
{
    lemma_wanted_steps_split(config, 0, 4, 12);
    assert(wanted_steps(config, 0, 4) =~= (if config.reports_telemetry() {
        seq![Step::CreateTelemetry]
    } else {
        seq![]
    }) + seq![Step::CreateExecutor, Step::BuildFullParts] + (if config.reports_telemetry() {
        seq![Step::SpawnTelemetryWorker]
    } else {
        seq![]
    })) by {
        reveal_with_fuel(wanted_steps, 5);
    }
    assert(wanted_steps(config, 4, 12) =~= seq![
        Step::SelectLongestChain,
        Step::CreateTransactionPool,
        Step::OpenFrontierBackend,
        Step::CreateEthCaches,
        Step::ImportGrandpaBlocks,
        Step::ImportFrontierBlocks,
        Step::ReadSlotDuration,
        Step::BuildImportQueue,
    ]) by {
        reveal_with_fuel(wanted_steps, 9);
    }
}

/// A full node, once its components are built, sets up the network, then the
/// services on it, then authoring, then finality, and starts the network in the
/// end. The settings only leave steps out; they move none.
pub proof fn law_node_starts_in_one_row(config: &Configuration)
    ensures
        full_plan(config) == partial_plan(config) + seq![
            Step::NameGrandpaProtocol,
            Step::AddGrandpaPeersSet,
            Step::ProvideWarpSync,
            Step::BuildNetwork,
        ] + (if config.offchain_worker {
            seq![Step::BuildOffchainWorkers]
        } else {
            seq![]
        }) + seq![
            Step::CacheEthBlocks,
            Step::BuildRpcExtensions,
            Step::SpawnServiceTasks,
            Step::SpawnFrontierTasks,
        ] + (if config.role is Authority {
            seq![
                Step::CreateProposerFactory,
                Step::ReadAuthoringSlotDuration,
                Step::StartAura,
                Step::SpawnAura,
            ]
        } else {
            seq![]
        }) + seq![Step::ConfigureGrandpa] + (if config.disable_grandpa {
            seq![]
        } else {
            seq![Step::RunGrandpaVoter, Step::SpawnGrandpaVoter]
        }) + seq![Step::StartNetwork],
{
    lemma_wanted_steps_split(config, 0, 12, 29);
    lemma_wanted_steps_split(config, 12, 17, 29);
    lemma_wanted_steps_split(config, 17, 21, 29);
    lemma_wanted_steps_split(config, 21, 25, 29);
    assert(wanted_steps(config, 12, 17) =~= seq![
        Step::NameGrandpaProtocol,
        Step::AddGrandpaPeersSet,
        Step::ProvideWarpSync,
        Step::BuildNetwork,
    ] + (if config.offchain_worker {
        seq![Step::BuildOffchainWorkers]
    } else {
        seq![]
    })) by {
        reveal_with_fuel(wanted_steps, 6);
    }
    assert(wanted_steps(config, 17, 21) =~= seq![
        Step::CacheEthBlocks,
        Step::BuildRpcExtensions,
        Step::SpawnServiceTasks,
        Step::SpawnFrontierTasks,
    ]) by {
        reveal_with_fuel(wanted_steps, 5);
    }
    assert(wanted_steps(config, 21, 25) =~= if config.role is Authority {
        seq![
            Step::CreateProposerFactory,
            Step::ReadAuthoringSlotDuration,
            Step::StartAura,
            Step::SpawnAura,
        ]
    } else {
        seq![]
    }) by {
        reveal_with_fuel(wanted_steps, 5);
    }
    assert(wanted_steps(config, 25, 29) =~= seq![Step::ConfigureGrandpa] + (
    if config.disable_grandpa {
        seq![]
    } else {
        seq![Step::RunGrandpaVoter, Step::SpawnGrandpaVoter]
    }) + seq![Step::StartNetwork]) by {
        reveal_with_fuel(wanted_steps, 5);
    }
    assert(full_plan(config) =~= partial_plan(config) + wanted_steps(config, 12, 17)
        + wanted_steps(config, 17, 21) + wanted_steps(config, 21, 25) + wanted_steps(
        config,
        25,
        29,
    ));
    assert(full_plan(config) =~= partial_plan(config) + seq![
        Step::NameGrandpaProtocol,
        Step::AddGrandpaPeersSet,
        Step::ProvideWarpSync,
        Step::BuildNetwork,
    ] + (if config.offchain_worker {
        seq![Step::BuildOffchainWorkers]
    } else {
        seq![]
    }) + seq![
        Step::CacheEthBlocks,
        Step::BuildRpcExtensions,
        Step::SpawnServiceTasks,
        Step::SpawnFrontierTasks,
    ] + wanted_steps(config, 21, 25) + seq![Step::ConfigureGrandpa] + (
    if config.disable_grandpa {
        seq![]
    } else {
        seq![Step::RunGrandpaVoter, Step::SpawnGrandpaVoter]
    }) + seq![Step::StartNetwork]);
}

/// No other setting bears on the steps: nodes that agree on whether to report
/// telemetry, run off-chain workers, author blocks and vote take the same steps.
/// Of these settings, only telemetry bears on the components of a node.
pub proof fn law_no_other_setting_bears_on_the_steps(left: &Configuration, right: &Configuration)
    requires
        (left.telemetry_endpoints matches Some(servers) && servers@.len() > 0) == (
        right.telemetry_endpoints matches Some(servers) && servers@.len() > 0),
    ensures
        partial_plan(left) == partial_plan(right),
        left.offchain_worker == right.offchain_worker && left.role == right.role
            && left.disable_grandpa == right.disable_grandpa ==> full_plan(left) == full_plan(
            right,
        ),
{
    law_components_are_built_in_one_row(left);
    law_components_are_built_in_one_row(right);
    law_node_starts_in_one_row(left);
    law_node_starts_in_one_row(right);
}

/// A full node starts by building the components of a node.
pub proof fn law_full_start_begins_with_partial_start(config: &Configuration)
    ensures
        partial_plan(config).len() <= full_plan(config).len(),
        full_plan(config).take(partial_plan(config).len() as int) == partial_plan(config),
{
    lemma_wanted_steps_split(config, 0, PARTIAL_STEPS as int, STEPS as int);
    assert(full_plan(config).take(partial_plan(config).len() as int) =~= partial_plan(config));
}

/// No step works with a component that was not made in an earlier step.
pub proof fn law_components_are_made_before_use(
    config: &Configuration,
    k: int,
    component: Component,
)
    requires
        0 <= k < full_plan(config).len(),
        works_with(config, full_plan(config)[k], component),
    ensures
        exists|j: int| 0 <= j < k && #[trigger] full_plan(config)[j] == maker(component),
{
    let plan = full_plan(config);
    lemma_wanted_steps(config, 0, STEPS as int);
    assert(plan.contains(plan[k]));
    assert(is_wanted(config, plan[k]));
    assert(is_wanted(config, maker(component)));
    assert(rank(maker(component)) < rank(plan[k]));
    law_plan_is_what_is_wanted(config, maker(component));
    let j = plan.index_of(maker(component));
    assert(plan[j] == maker(component));
}

/// Once the components of a node are built, everything that is handed over has
/// been made.
pub proof fn law_partial_start_makes_the_components(config: &Configuration, component: Component)
    requires
        is_partial_component(component),
    ensures
        partial_plan(config).contains(maker(component)),
{
    law_plan_is_what_is_wanted(config, maker(component));
}

/// The network starts last, when all else is done.
pub proof fn law_network_starts_last(config: &Configuration)
    ensures
        full_plan(config).len() > 0,
        full_plan(config).last() == Step::StartNetwork,
        !full_plan(config).drop_last().contains(Step::StartNetwork),
        !partial_plan(config).contains(Step::StartNetwork),
{
    let plan = full_plan(config);
    lemma_wanted_steps(config, 0, STEPS as int);
    law_plan_is_what_is_wanted(config, Step::StartNetwork);
    let i = plan.index_of(Step::StartNetwork);
    assert(plan[i] == Step::StartNetwork);
    if i < plan.len() - 1 {
        assert(rank(plan[i]) < rank(plan[plan.len() - 1]));
        law_order_holds_every_step_once(plan[plan.len() - 1], 0);
    }
    if plan.drop_last().contains(Step::StartNetwork) {
        let j = plan.drop_last().index_of(Step::StartNetwork);
        assert(plan[j] == Step::StartNetwork);
        assert(rank(plan[j]) < rank(plan[plan.len() - 1]));
    }
}

/// Blocks are authored by authorities alone.
pub proof fn law_only_authorities_author_blocks(config: &Configuration)
    ensures
        full_plan(config).contains(Step::StartAura) <==> config.role == Role::Authority,
        full_plan(config).contains(Step::SpawnAura) <==> config.role == Role::Authority,
{
    law_plan_is_what_is_wanted(config, Step::StartAura);
    law_plan_is_what_is_wanted(config, Step::SpawnAura);
}

/// A node that takes no active part in consensus needs no keystore: GRANDPA is
/// handed one exactly where the node is an authority, whether it votes or not.
pub proof fn law_keystore_goes_to_authorities(config: &Configuration)
    ensures
        action_of(config, Step::ConfigureGrandpa) matches Action::ConfigureGrandpa { keystore, .. }
            && keystore == (config.role == Role::Authority),
{
}

/// The full voter runs on every node that does not switch GRANDPA off,
/// authority or not, and on no other. The observer runs on none.
pub proof fn law_every_node_votes_unless_disabled(config: &Configuration)
    ensures
        action_of(config, Step::ConfigureGrandpa) matches Action::ConfigureGrandpa {
            observer_enabled,
            ..
        } && !observer_enabled,
        full_plan(config).contains(Step::SpawnGrandpaVoter) <==> !config.disable_grandpa,
        full_plan(config).contains(Step::RunGrandpaVoter) <==> !config.disable_grandpa,
{
    law_plan_is_what_is_wanted(config, Step::RunGrandpaVoter);
    law_plan_is_what_is_wanted(config, Step::SpawnGrandpaVoter);
}

/// Whether an action hands a telemetry handle on.
pub open spec fn hands_on_telemetry(action: Action) -> bool {
    match action {
        Action::BuildFullParts { telemetry } => telemetry,
        Action::ImportGrandpaBlocks { telemetry } => telemetry,
        Action::BuildImportQueue { telemetry, .. } => telemetry,
        Action::SpawnServiceTasks { telemetry } => telemetry,
        Action::CreateProposerFactory { telemetry, .. } => telemetry,
        Action::StartAura { telemetry, .. } => telemetry,
        Action::ConfigureGrandpa { telemetry, .. } => telemetry,
        Action::RunGrandpaVoter { telemetry, .. } => telemetry,
        _ => false,
    }
}

/// The telemetry worker runs exactly where there is a server to report to, and
/// then a telemetry handle is handed to all that report.
pub proof fn law_telemetry_needs_an_endpoint(config: &Configuration)
    ensures
        full_plan(config).contains(Step::CreateTelemetry) <==> config.reports_telemetry(),
        full_plan(config).contains(Step::SpawnTelemetryWorker) <==> config.reports_telemetry(),
        config.telemetry_endpoints is None ==> !config.reports_telemetry(),
        hands_on_telemetry(action_of(config, Step::BuildFullParts)) == config.reports_telemetry(),
        hands_on_telemetry(action_of(config, Step::ImportGrandpaBlocks))
            == config.reports_telemetry(),
        hands_on_telemetry(action_of(config, Step::BuildImportQueue)) == config.reports_telemetry(),
        hands_on_telemetry(action_of(config, Step::SpawnServiceTasks))
            == config.reports_telemetry(),
        hands_on_telemetry(action_of(config, Step::CreateProposerFactory))
            == config.reports_telemetry(),
        hands_on_telemetry(action_of(config, Step::StartAura)) == config.reports_telemetry(),
        hands_on_telemetry(action_of(config, Step::ConfigureGrandpa)) == config.reports_telemetry(),
        hands_on_telemetry(action_of(config, Step::RunGrandpaVoter)) == config.reports_telemetry(),
{
    law_plan_is_what_is_wanted(config, Step::CreateTelemetry);
    law_plan_is_what_is_wanted(config, Step::SpawnTelemetryWorker);
}

/// A telemetry handle is handed on in exactly the steps that work with
/// telemetry.
pub proof fn law_telemetry_is_handed_to_those_who_report(config: &Configuration, step: Step)
    ensures
        hands_on_telemetry(action_of(config, step)) == works_with(
            config,
            step,
            Component::Telemetry,
        ),
{
}

/// Blocks come in through Frontier, which stands in front of GRANDPA: Frontier
/// wraps the import of GRANDPA, the import queue and AURA import through
/// Frontier, and justifications go to GRANDPA itself. Each step is handed the
/// imports that its action names.
pub proof fn law_blocks_come_in_through_frontier(config: &Configuration)
    ensures
        action_of(config, Step::ImportFrontierBlocks) == (Action::ImportFrontierBlocks {
            inner: Component::GrandpaImport,
        }),
        action_of(config, Step::BuildImportQueue) matches Action::BuildImportQueue {
            block_import,
            justification_import,
            ..
        } && block_import == Component::BlockImport && justification_import == Some(
            Component::GrandpaImport,
        ),
        action_of(config, Step::StartAura) matches Action::StartAura { block_import, .. }
            && block_import == Component::BlockImport,
        works_with(config, Step::ImportFrontierBlocks, Component::GrandpaImport),
        works_with(config, Step::BuildImportQueue, Component::BlockImport),
        works_with(config, Step::BuildImportQueue, Component::GrandpaImport),
        works_with(config, Step::StartAura, Component::BlockImport),
        !works_with(config, Step::StartAura, Component::GrandpaImport),
{
}

/// The peers set of GRANDPA is added in every full start, whether GRANDPA is
/// switched off or not, and before the network is built. Whoever is given the
/// configuration of the node from then on, is given it with that set: the
/// network, the off-chain workers and the service tasks. The set and the voter go
/// by the same protocol name.
pub proof fn law_grandpa_peers_set_is_added(config: &Configuration, step: Step)
    ensures
        full_plan(config).contains(Step::AddGrandpaPeersSet),
        rank(Step::AddGrandpaPeersSet) < rank(Step::BuildNetwork),
        works_with(config, step, Component::GrandpaPeersSet) <==> step == Step::BuildNetwork || step
            == Step::BuildOffchainWorkers || step == Step::SpawnServiceTasks,
        works_with(config, step, Component::GrandpaPeersSet) ==> rank(maker(Component::GrandpaPeersSet))
            < rank(step),
        action_of(config, Step::AddGrandpaPeersSet) == (Action::AddGrandpaPeersSet {
            protocol_name: Component::GrandpaProtocolName,
        }),
        action_of(config, Step::ConfigureGrandpa) matches Action::ConfigureGrandpa {
            protocol_name,
            ..
        } && protocol_name == Component::GrandpaProtocolName,
        works_with(config, Step::AddGrandpaPeersSet, Component::GrandpaProtocolName),
        works_with(config, Step::ConfigureGrandpa, Component::GrandpaProtocolName),
{
    law_plan_is_what_is_wanted(config, Step::AddGrandpaPeersSet);
}

/// The handle that an action hands on to spawn tasks by.
pub open spec fn handed_spawn_handle(action: Action) -> Option<SpawnHandle> {
    match action {
        Action::CreateTransactionPool { spawn_handle, .. } => Some(spawn_handle),
        Action::BuildImportQueue { spawn_handle, .. } => Some(spawn_handle),
        Action::BuildNetwork { spawn_handle, .. } => Some(spawn_handle),
        Action::BuildOffchainWorkers { spawn_handle } => Some(spawn_handle),
        Action::CacheEthBlocks { spawn_handle, .. } => Some(spawn_handle),
        Action::BuildRpcExtensions { spawn_handle, .. } => Some(spawn_handle),
        Action::CreateProposerFactory { spawn_handle, .. } => Some(spawn_handle),
        _ => None,
    }
}

/// The node goes down with the tasks of the transaction pool and of the import
/// queue, and with those of no other component that spawns tasks by a handle.
/// The handles come from the task manager.
pub proof fn law_pool_and_import_queue_are_essential(config: &Configuration, step: Step)
    ensures
        handed_spawn_handle(action_of(config, step)) == Some(SpawnHandle::Essential) <==> step
            == Step::CreateTransactionPool || step == Step::BuildImportQueue,
        handed_spawn_handle(action_of(config, step)) is Some ==> works_with(
            config,
            step,
            Component::TaskManager,
        ),
{
}

/// Every component is made at most once, so that all steps which are handed a
/// component share it: there is one client, one backend and one of each other.
pub proof fn law_components_are_made_once(
    config: &Configuration,
    component: Component,
    i: int,
    j: int,
)
    requires
        0 <= i < full_plan(config).len(),
        0 <= j < full_plan(config).len(),
        full_plan(config)[i] == maker(component),
        full_plan(config)[j] == maker(component),
    ensures
        i == j,
{
    if i < j {
        law_plan_keeps_the_order(config, i, j);
    } else if j < i {
        law_plan_keeps_the_order(config, j, i);
    }
}

/// The RPC extensions and the Frontier tasks reckon with the caches as they were
/// created: the fee history reaches equally far back everywhere, and the filter
/// pool is maintained where there is one.
pub proof fn law_eth_caches_are_used_as_created(config: &Configuration)
    ensures
        action_of(config, Step::CreateEthCaches) matches Action::CreateEthCaches {
            filter_pool,
            fee_history_limit,
        } && (action_of(config, Step::SpawnFrontierTasks) == (Action::SpawnFrontierTasks {
            filter_pool,
            fee_history_limit,
        })) && (action_of(config, Step::BuildRpcExtensions) matches Action::BuildRpcExtensions {
            fee_history_limit: limit,
            ..
        } && limit == fee_history_limit),
{
}

/// The tasks that an action spawns itself.
pub open spec fn spawned_tasks(action: Action) -> Seq<Task> {
    match action {
        Action::SpawnTelemetryWorker { task } => seq![task],
        Action::SpawnFrontierTasks { filter_pool, fee_history_limit } => frontier_tasks(
            filter_pool,
            fee_history_limit,
        ).map_values(|task: FrontierTask| task.task),
        Action::SpawnAura { task } => seq![task],
        Action::SpawnGrandpaVoter { task } => seq![task],
        _ => seq![],
    }
}

/// Of the tasks that are spawned step by step, the node goes down with every
/// one but the telemetry worker.
pub proof fn law_node_goes_down_with_its_tasks(config: &Configuration, step: Step, i: int)
    requires
        0 <= i < spawned_tasks(action_of(config, step)).len(),
    ensures
        spawned_tasks(action_of(config, step))[i].essential <==> step
            != Step::SpawnTelemetryWorker,
{
}

/// No two of the tasks that are spawned step by step have the same name.
pub proof fn law_task_names_are_distinct(
    config: &Configuration,
    left: Step,
    i: int,
    right: Step,
    j: int,
)
    requires
        0 <= i < spawned_tasks(action_of(config, left)).len(),
        0 <= j < spawned_tasks(action_of(config, right)).len(),
        left != right || i != j,
    ensures
        spawned_tasks(action_of(config, left))[i].name@ != spawned_tasks(
            action_of(config, right),
        )[j].name@,
{
    if left == Step::SpawnFrontierTasks && right == Step::SpawnFrontierTasks {
        if i < j {
            law_frontier_task_names_are_distinct(true, FEE_HISTORY_CACHE_LIMIT, i, j);
        } else {
            law_frontier_task_names_are_distinct(true, FEE_HISTORY_CACHE_LIMIT, j, i);
        }
    }
    reveal_strlit("telemetry");
    reveal_strlit("aura");
    reveal_strlit("grandpa-voter");
    reveal_strlit("frontier-mapping-sync-worker");
    reveal_strlit("frontier-filter-pool");
    reveal_strlit("frontier-fee-history");
    reveal_strlit("frontier-schema-cache-task");
    assert("telemetry"@.len() == 9);
    assert("aura"@.len() == 4);
    assert("grandpa-voter"@.len() == 13);
    assert("frontier-mapping-sync-worker"@.len() == 28);
    assert("frontier-filter-pool"@.len() == 20);
    assert("frontier-fee-history"@.len() == 20);
    assert("frontier-schema-cache-task"@.len() == 26);
}

/// The start after a row of outcomes.
pub open spec fn walk<'a>(start: StartupView<'a>, outcomes: Seq<Outcome>) -> StartupView<'a>
    decreases outcomes.len(),
{
    if outcomes.len() == 0 {
        start
    } else {
        walk(start, outcomes.drop_last()).after(outcomes.last())
    }
}

/// The start with a plan ahead of it.
pub open spec fn fresh<'a>(config: &'a Configuration, plan: Seq<Step>) -> StartupView<'a> {
    StartupView { config, remaining: plan, failed: false }
}

/// Whatever the outcomes, the steps that were taken are the first ones of the
/// plan: none is skipped, repeated or taken out of order.
pub proof fn law_steps_are_taken_in_order(
    config: &Configuration,
    plan: Seq<Step>,
    outcomes: Seq<Outcome>,
)
    ensures
        walk(fresh(config, plan), outcomes).config == config,
        exists|n: int|
            0 <= n <= plan.len() && n <= outcomes.len() && walk(
                fresh(config, plan),
                outcomes,
            ).remaining == #[trigger] plan.skip(n),
    decreases outcomes.len(),
{
    if outcomes.len() == 0 {
        assert(plan.skip(0) =~= plan);
    } else {
        let before = walk(fresh(config, plan), outcomes.drop_last());
        law_steps_are_taken_in_order(config, plan, outcomes.drop_last());
        let n = choose|n: int|
            0 <= n <= plan.len() && n <= outcomes.drop_last().len() && before.remaining
                == #[trigger] plan.skip(n);
        if before.remaining.len() > 0 {
            assert(plan.skip(n).drop_first() =~= plan.skip(n + 1));
        }
    }
}

/// Where every step succeeds, as many steps are taken as outcomes came in,
/// until the plan is done.
pub proof fn law_success_walks_through_the_plan(
    config: &Configuration,
    plan: Seq<Step>,
    outcomes: Seq<Outcome>,
)
    requires
        config.database != DatabaseSource::Custom,
        outcomes.len() <= plan.len(),
        forall|i: int| 0 <= i < outcomes.len() ==> outcomes[i] == Outcome::Done,
    ensures
        walk(fresh(config, plan), outcomes) == fresh(config, plan.skip(outcomes.len() as int)),
        outcomes.len() == plan.len() ==> walk(fresh(config, plan), outcomes).stands_at(
            Progress::Complete,
        ),
    decreases outcomes.len(),
{
    if outcomes.len() == 0 {
        assert(plan.skip(0) =~= plan);
    } else {
        let n = outcomes.len() as int;
        law_success_walks_through_the_plan(config, plan, outcomes.drop_last());
        assert(plan.skip(n - 1).drop_first() =~= plan.skip(n));
    }
}

/// A step that fails ends the start for good: no outcome that comes in later
/// changes anything, and the start keeps naming that step.
pub proof fn law_failure_is_final(start: StartupView, outcomes: Seq<Outcome>)
    requires
        !start.has_ended(),
    ensures
        walk(start.after(Outcome::Failed), outcomes) == start.after(Outcome::Failed),
        start.after(Outcome::Failed).stands_at(Progress::Failed(start.remaining.first())),
    decreases outcomes.len(),
{
    if outcomes.len() > 0 {
        law_failure_is_final(start, outcomes.drop_last());
    }
}

/// A node with a custom database never gets further than to the Frontier
/// database: neither its components nor the node itself are ever complete.
pub proof fn law_custom_database_never_completes(config: &Configuration, outcomes: Seq<Outcome>)
    requires
        config.database == DatabaseSource::Custom,
    ensures
        walk(fresh(config, partial_plan(config)), outcomes).remaining.contains(
            Step::OpenFrontierBackend,
        ),
        walk(fresh(config, full_plan(config)), outcomes).remaining.contains(
            Step::OpenFrontierBackend,
        ),
{
    law_plan_is_what_is_wanted(config, Step::OpenFrontierBackend);
    lemma_refused_step_remains(config, partial_plan(config), Step::OpenFrontierBackend, outcomes);
    lemma_refused_step_remains(config, full_plan(config), Step::OpenFrontierBackend, outcomes);
}

proof fn lemma_refused_step_remains(
    config: &Configuration,
    plan: Seq<Step>,
    step: Step,
    outcomes: Seq<Outcome>,
)
    requires
        plan.contains(step),
        is_refused(config, step),
    ensures
        walk(fresh(config, plan), outcomes).config == config,
        walk(fresh(config, plan), outcomes).remaining.contains(step),
    decreases outcomes.len(),
{
    if outcomes.len() > 0 {
        let before = walk(fresh(config, plan), outcomes.drop_last());
        lemma_refused_step_remains(config, plan, step, outcomes.drop_last());
        let i = before.remaining.index_of(step);
        if i > 0 {
            assert(before.remaining.drop_first()[i - 1] == step);
        }
    }
}

/// An outcome counts for the next step and for no other: a step that is done is
/// behind the start, which then stands before the rest of its steps; a step that
/// failed stays, and the start has failed. A start that is complete, that has
/// failed or that cannot go on takes no notice of outcomes.
pub proof fn law_outcomes_count_for_the_next_step(start: StartupView)
    ensures
        ({
            let goes_on = !start.failed && start.remaining.len() > 0 && !(
            start.remaining.first() is OpenFrontierBackend && start.config.database is Custom);
            let done = start.after(Outcome::Done);
            let failed = start.after(Outcome::Failed);
            &&& done.config == start.config
            &&& failed.config == start.config
            &&& goes_on ==> start.remaining == seq![start.remaining.first()] + done.remaining
                && !done.failed
            &&& goes_on ==> failed.remaining == start.remaining && failed.failed
            &&& !goes_on ==> done == start && failed == start
        }),
{
    if start.remaining.len() > 0 {
        assert(start.remaining =~= seq![start.remaining.first()] + start.remaining.drop_first());
    }
}

/// A start tells where it stands: it names the step that failed; it is complete
/// when no step is left; it refuses to open a Frontier database beside a custom
/// one, and says why; and in every other case it says what to do in the next step.
pub proof fn law_start_tells_where_it_stands<'a>(start: StartupView<'a>, progress: Progress<'a>)
    requires
        start.stands_at(progress),
        start.failed ==> start.remaining.len() > 0,
    ensures
        progress is Failed <==> start.failed,
        progress matches Progress::Failed(step) ==> step == start.remaining[0],
        progress is Complete <==> start.remaining.len() == 0,
        progress is Refused <==> !start.failed && start.remaining.len() > 0
            && start.remaining[0] is OpenFrontierBackend && start.config.database is Custom,
        progress matches Progress::Refused(reason) ==> reason@
            == "Supported db sources: `rocksdb` | `paritydb` | `auto`"@,
        progress matches Progress::Perform(action) ==> action == action_of(
            start.config,
            start.remaining[0],
        ),
{
}

/// Where every step succeeds, a full start performs each step of its plan in its
/// turn, and nothing else, until it is complete.
pub proof fn law_full_start_performs_its_plan(config: &Configuration, outcomes: Seq<Outcome>)
    requires
        config.database !is Custom,
        outcomes.len() < full_plan(config).len(),
        forall|i: int| 0 <= i < outcomes.len() ==> outcomes[i] == Outcome::Done,
    ensures
        walk(fresh(config, full_plan(config)), outcomes).stands_at(
            Progress::Perform(action_of(config, full_plan(config)[outcomes.len() as int])),
        ),
        walk(fresh(config, full_plan(config)), outcomes.push(Outcome::Failed)).stands_at(
            Progress::Failed(full_plan(config)[outcomes.len() as int]),
        ),
{
    let plan = full_plan(config);
    law_success_walks_through_the_plan(config, plan, outcomes);
    assert(plan.skip(outcomes.len() as int).first() == plan[outcomes.len() as int]);
    assert(outcomes.push(Outcome::Failed).drop_last() =~= outcomes);
}

} // verus!
