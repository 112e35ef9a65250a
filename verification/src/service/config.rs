//! What the start of a node reads of its configuration.

use vstd::prelude::*;

verus! {

/// `std::path::PathBuf`, carried from the configuration to the paths that are
/// built on it. Nothing is claimed of what it holds.
#[verifier::external_type_specification]
#[verifier::external_body]
pub struct ExPathBuf(std::path::PathBuf);

/// The part that a node plays in its network.
#[derive(Debug, Clone, Copy, PartialEq, Eq, Structural)]
pub enum Role {
    /// A node that follows the chain.
    Full,
    /// A node that also authors blocks.
    Authority,
}

impl Role {
    /// Whether a node of this role authors blocks.
    pub fn is_authority(self) -> (authority: bool)
        ensures
            authority == (self == Role::Authority),
    {
        match self {
            Role::Authority => true,
            Role::Full => false,
        }
    }
}

/// How a Wasm runtime is executed.
#[derive(Debug, Clone, Copy, PartialEq, Eq, Structural)]
pub enum WasmExecutionMethod {
    /// By an interpreter.
    Interpreted,
    /// As compiled code.
    Compiled,
}

/// The database that a node keeps its chain in.
#[derive(Debug, Clone, Copy, PartialEq, Eq, Structural)]
pub enum DatabaseSource {
    /// A RocksDB database.
    RocksDb,
    /// A ParityDB database.
    ParityDb,
    /// Whichever of the two is found on disk.
    Auto,
    /// A database that the embedder brings along.
    Custom,
}

/// How much a queue of the transaction pool may hold.
#[derive(Debug, Clone, Copy, PartialEq, Eq, Structural)]
pub struct PoolLimit {
    /// How many transactions.
    pub count: usize,
    /// How many bytes in all.
    pub total_bytes: usize,
}

/// The options of the transaction pool.
#[derive(Debug, Clone, Copy, PartialEq, Eq, Structural)]
pub struct TransactionPoolOptions {
    /// The limit of the transactions that are ready.
    pub ready: PoolLimit,
    /// The limit of the transactions that wait for others.
    pub future: PoolLimit,
    /// Whether transactions that wait for others are rejected.
    pub reject_future_transactions: bool,
    /// For how many whole seconds a transaction is banned.
    pub ban_time_secs: u64,
    /// For how many nanoseconds more.
    pub ban_time_nanos: u32,
}

/// The configuration of a node, as far as its start depends on it.
#[derive(Debug)]
pub struct Configuration {
    /// The address of a remote keystore.
    pub keystore_remote: Option<String>,
    /// The telemetry servers, each with the verbosity it is sent.
    pub telemetry_endpoints: Option<Vec<(String, u8)>>,
    /// How the Wasm runtime is executed.
    pub wasm_method: WasmExecutionMethod,
    /// The heap pages that a runtime instance gets.
    pub default_heap_pages: Option<u64>,
    /// How many runtime instances may exist at once.
    pub max_runtime_instances: usize,
    /// How many runtimes are cached.
    pub runtime_cache_size: u8,
    /// The options of the transaction pool.
    pub transaction_pool: TransactionPoolOptions,
    /// Whether there is a Prometheus registry.
    pub prometheus: bool,
    /// The part that the node plays.
    pub role: Role,
    /// The database of the chain.
    pub database: DatabaseSource,
    /// The directory under which the node keeps its data.
    pub base_path: Option<std::path::PathBuf>,
    /// The identifier of the chain.
    pub chain_id: String,
    /// The name of the node's executable.
    pub executable_name: String,
    /// Whether blocks are authored even when the node is offline.
    pub force_authoring: bool,
    /// The name by which the network knows the node.
    pub node_name: String,
    /// Whether the node takes no part in finalising blocks.
    pub disable_grandpa: bool,
    /// Whether off-chain workers run.
    pub offchain_worker: bool,
}

impl Configuration {
    /// Whether there is a telemetry server to report to.
    pub open spec fn reports_telemetry(self) -> bool {
        self.telemetry_endpoints is Some && self.telemetry_endpoints->0@.len() > 0
    }

    /// The telemetry servers to report to, where there is at least one.
    pub fn telemetry(&self) -> (endpoints: Option<&Vec<(String, u8)>>)
        ensures
            endpoints == if self.reports_telemetry() {
                Some(&self.telemetry_endpoints->0)
            } else {
                None
            },
    {
        match &self.telemetry_endpoints {
            Some(endpoints) => if endpoints.len() > 0 {
                Some(endpoints)
            } else {
                None
            },
            None => None,
        }
    }
}

/// Telemetry is reported exactly where the configuration lists a server, whatever
/// else it says: an empty list counts as none.
pub proof fn law_telemetry_is_reported_to_listed_servers(config: &Configuration)
    ensures
        config.telemetry_endpoints is None ==> !config.reports_telemetry(),
        config.telemetry_endpoints matches Some(servers) ==> (config.reports_telemetry()
            <==> servers@.len() > 0),
{
}

/// The servers to report to are those that are listed, all of them and in their
/// order, and there are none where none is listed.
pub proof fn law_listed_servers_are_reported_to(
    config: &Configuration,
    endpoints: Option<&Vec<(String, u8)>>,
)
    requires
        call_ensures(Configuration::telemetry, (config,), endpoints),
    ensures
        endpoints is Some <==> (config.telemetry_endpoints matches Some(servers) && servers@.len()
            > 0),
        endpoints matches Some(reported) ==> Some(*reported) == config.telemetry_endpoints,
{
}

/// Of the two roles, one authors blocks.
pub proof fn law_only_the_authority_role_authors(role: Role, authority: bool)
    requires
        call_ensures(Role::is_authority, (role,), authority),
    ensures
        authority <==> role is Authority,
{
}

} // verus!
