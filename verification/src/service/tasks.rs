//! The background tasks of a node.

use vstd::prelude::*;

verus! {

/// How a background task is spawned.
#[derive(Debug, Clone, Copy)]
pub struct Task {
    /// The name of the task.
    pub name: &'static str,
    /// The group that the task is counted in.
    pub group: Option<&'static str>,
    /// Whether the node goes down with the task.
    pub essential: bool,
    /// Whether the task may block its thread.
    pub blocking: bool,
}

/// How the mapping worker walks the blocks.
#[derive(Debug, Clone, Copy, PartialEq, Eq, Structural)]
pub enum SyncStrategy {
    /// As the blocks are imported.
    Normal,
}

/// What a Frontier task does.
#[derive(Debug, Clone, Copy, PartialEq, Eq, Structural)]
pub enum FrontierWork {
    /// Maps Ethereum blocks to those of the chain: every `interval_secs`
    /// seconds, with `retry_times` tries, from block `sync_from` on.
    MappingSync { interval_secs: u64, retry_times: usize, sync_from: u32, strategy: SyncStrategy },
    /// Drops filters that have been in the pool for `retain_threshold` blocks.
    FilterPool { retain_threshold: u64 },
    /// Keeps the fees of the last `limit` blocks.
    FeeHistory { limit: u64 },
    /// Caches the Ethereum schema of the runtime.
    SchemaCache,
}

/// A Frontier task to spawn.
#[derive(Debug, Clone, Copy)]
pub struct FrontierTask {
    pub task: Task,
    pub work: FrontierWork,
}

/// How many blocks a filter is allowed to stay in the pool for.
pub const FILTER_RETAIN_THRESHOLD: u64 = 100;

/// An essential task of the Frontier group.
pub open spec fn frontier_task(name: &'static str, work: FrontierWork) -> FrontierTask {
    FrontierTask {
        task: Task { name, group: Some("frontier"), essential: true, blocking: false },
        work,
    }
}

/// The worker that maps Ethereum blocks to those of the chain.
pub open spec fn mapping_sync_worker() -> FrontierTask {
    frontier_task(
        "frontier-mapping-sync-worker",
        FrontierWork::MappingSync {
            interval_secs: 2,
            retry_times: 3,
            sync_from: 0,
            strategy: SyncStrategy::Normal,
        },
    )
}

/// The task that maintains the filter pool.
pub open spec fn filter_pool_task() -> FrontierTask {
    frontier_task(
        "frontier-filter-pool",
        FrontierWork::FilterPool { retain_threshold: FILTER_RETAIN_THRESHOLD },
    )
}

/// The task that maintains the fee history.
pub open spec fn fee_history_task(limit: u64) -> FrontierTask {
    frontier_task("frontier-fee-history", FrontierWork::FeeHistory { limit })
}

/// The task that caches the Ethereum schema.
pub open spec fn schema_cache_task() -> FrontierTask {
    frontier_task("frontier-schema-cache-task", FrontierWork::SchemaCache)
}

/// The Frontier tasks of a node, in the order they are spawned in. The filter
/// pool is maintained where there is one.
pub open spec fn frontier_tasks(filter_pool: bool, fee_history_limit: u64) -> Seq<FrontierTask> {
    seq![mapping_sync_worker()] + (if filter_pool {
        seq![filter_pool_task()]
    } else {
        seq![]
    }) + seq![fee_history_task(fee_history_limit), schema_cache_task()]
}

fn essential_frontier_task(name: &'static str, work: FrontierWork) -> (task: FrontierTask)
    ensures
        task == frontier_task(name, work),
{
    FrontierTask {
        task: Task { name, group: Some("frontier"), essential: true, blocking: false },
        work,
    }
}

/// The Frontier tasks to spawn for a node that has a filter pool or not, and
/// that keeps the fees of `fee_history_cache_limit` blocks.
pub fn spawn_frontier_tasks(filter_pool: bool, fee_history_cache_limit: u64) -> (tasks: Vec<
    FrontierTask,
>)
    ensures
        tasks@ == frontier_tasks(filter_pool, fee_history_cache_limit),
{
    let mut tasks: Vec<FrontierTask> = Vec::new();
    tasks.push(
        essential_frontier_task(
            "frontier-mapping-sync-worker",
            FrontierWork::MappingSync {
                interval_secs: 2,
                retry_times: 3,
                sync_from: 0,
                strategy: SyncStrategy::Normal,
            },
        ),
    );
    if filter_pool {
        tasks.push(
            essential_frontier_task(
                "frontier-filter-pool",
                FrontierWork::FilterPool { retain_threshold: FILTER_RETAIN_THRESHOLD },
            ),
        );
    }
    tasks.push(
        essential_frontier_task(
            "frontier-fee-history",
            FrontierWork::FeeHistory { limit: fee_history_cache_limit },
        ),
    );
    tasks.push(essential_frontier_task("frontier-schema-cache-task", FrontierWork::SchemaCache));
    assert(tasks@ =~= frontier_tasks(filter_pool, fee_history_cache_limit));
    tasks
}

/// The node goes down with any of its Frontier tasks, and they are counted in
/// one group.
pub proof fn law_frontier_tasks_are_essential(filter_pool: bool, fee_history_limit: u64, i: int)
    requires
        0 <= i < frontier_tasks(filter_pool, fee_history_limit).len(),
    ensures
        frontier_tasks(filter_pool, fee_history_limit)[i].task.essential,
        frontier_tasks(filter_pool, fee_history_limit)[i].task.group == Some("frontier"),
{
}

/// No two Frontier tasks have the same name.
pub proof fn law_frontier_task_names_are_distinct(
    filter_pool: bool,
    fee_history_limit: u64,
    i: int,
    j: int,
)
    requires
        0 <= i < j < frontier_tasks(filter_pool, fee_history_limit).len(),
    ensures
        frontier_tasks(filter_pool, fee_history_limit)[i].task.name@ != frontier_tasks(
            filter_pool,
            fee_history_limit,
        )[j].task.name@,
{
    reveal_strlit("frontier-mapping-sync-worker");
    reveal_strlit("frontier-filter-pool");
    reveal_strlit("frontier-fee-history");
    reveal_strlit("frontier-schema-cache-task");
    assert("frontier-filter-pool"@[10] != "frontier-fee-history"@[10]);
    assert("frontier-mapping-sync-worker"@.len() == 28);
    assert("frontier-filter-pool"@.len() == 20);
    assert("frontier-fee-history"@.len() == 20);
    assert("frontier-schema-cache-task"@.len() == 26);
    let names = frontier_tasks(filter_pool, fee_history_limit).map_values(
        |task: FrontierTask| task.task.name@,
    );
    assert(names =~= if filter_pool {
        seq![
            "frontier-mapping-sync-worker"@,
            "frontier-filter-pool"@,
            "frontier-fee-history"@,
            "frontier-schema-cache-task"@,
        ]
    } else {
        seq![
            "frontier-mapping-sync-worker"@,
            "frontier-fee-history"@,
            "frontier-schema-cache-task"@,
        ]
    });
    assert(names[i] != names[j]);
}

/// A filter pool adds its own task, second in the row, and changes no other.
pub proof fn law_filter_pool_adds_its_task(fee_history_limit: u64)
    ensures
        frontier_tasks(false, fee_history_limit).len() == 3,
        frontier_tasks(true, fee_history_limit) == frontier_tasks(false, fee_history_limit).insert(
            1,
            frontier_tasks(true, fee_history_limit)[1],
        ),
        frontier_tasks(true, fee_history_limit)[1].work is FilterPool,
        frontier_tasks(true, fee_history_limit)[1].task.name@ == "frontier-filter-pool"@,
{
    assert(frontier_tasks(true, fee_history_limit) =~= frontier_tasks(
        false,
        fee_history_limit,
    ).insert(1, frontier_tasks(true, fee_history_limit)[1]));
}

/// The limit of the fee history bears on the task that maintains the history and
/// on no other; there it is kept to exactly.
pub proof fn law_limit_bears_on_the_fee_history(
    filter_pool: bool,
    limit: u64,
    other: u64,
    i: int,
)
    requires
        0 <= i < frontier_tasks(filter_pool, limit).len(),
    ensures
        frontier_tasks(filter_pool, other).len() == frontier_tasks(filter_pool, limit).len(),
        frontier_tasks(filter_pool, limit)[i].task == frontier_tasks(filter_pool, other)[i].task,
        frontier_tasks(filter_pool, limit)[i].work == (FrontierWork::FeeHistory { limit }) <==> i
            == frontier_tasks(filter_pool, limit).len() - 2,
        i != frontier_tasks(filter_pool, limit).len() - 2 ==> frontier_tasks(filter_pool, limit)[i]
            == frontier_tasks(filter_pool, other)[i],
{
}

/// Every Frontier task has the name of its work, and blocks no thread. Blocks are
/// mapped from the first on as they are imported, every 2 seconds with 3 tries,
/// and a filter stays in the pool for 100 blocks.
pub proof fn law_frontier_tasks_are_named_after_their_work(
    filter_pool: bool,
    fee_history_limit: u64,
    i: int,
)
    requires
        0 <= i < frontier_tasks(filter_pool, fee_history_limit).len(),
    ensures
        ({
            let task = frontier_tasks(filter_pool, fee_history_limit)[i];
            &&& !task.task.blocking
            &&& match task.work {
                FrontierWork::MappingSync { interval_secs, retry_times, sync_from, strategy } => i
                    == 0 && task.task.name@ == "frontier-mapping-sync-worker"@ && interval_secs == 2
                    && retry_times == 3 && sync_from == 0 && strategy is Normal,
                FrontierWork::FilterPool { retain_threshold } => i == 1 && task.task.name@
                    == "frontier-filter-pool"@ && retain_threshold == 100,
                FrontierWork::FeeHistory { limit } => task.task.name@ == "frontier-fee-history"@
                    && limit == fee_history_limit,
                FrontierWork::SchemaCache => i == frontier_tasks(
                    filter_pool,
                    fee_history_limit,
                ).len() - 1 && task.task.name@ == "frontier-schema-cache-task"@,
            }
        }),
{
}

/// As many tasks are spawned as there is work: mapping, fee history and schema
/// cache on every node, and the filter pool where there is one; each of them
/// once, and in this order.
pub proof fn law_spawned_tasks_do_the_work(
    filter_pool: bool,
    fee_history_cache_limit: u64,
    tasks: Vec<FrontierTask>,
)
    requires
        call_ensures(spawn_frontier_tasks, (filter_pool, fee_history_cache_limit), tasks),
    ensures
        tasks@ == frontier_tasks(filter_pool, fee_history_cache_limit),
        tasks@.len() == if filter_pool {
            4int
        } else {
            3int
        },
        tasks@[0].work is MappingSync,
        filter_pool ==> tasks@[1].work is FilterPool,
        tasks@[tasks@.len() - 2].work is FeeHistory,
        tasks@.last().work is SchemaCache,
{
}

} // verus!
