//! The native executor of the node.

use vstd::prelude::*;

verus! {

/// The host functions that a runtime may import besides the standard ones.
#[derive(Debug, Clone, Copy, PartialEq, Eq, Structural)]
pub enum HostFunctions {
    /// Nothing beyond the standard host functions.
    Standard,
    /// The host functions that benchmarks need.
    Benchmarking,
}

/// The node's native executor instance.
#[derive(Debug, Clone, Copy, PartialEq, Eq, Structural)]
pub struct ExecutorDispatch;

impl ExecutorDispatch {
    /// The host functions to extend the executor with: those of benchmarking
    /// only for a node that is built to benchmark its runtime.
    pub fn extend_host_functions(self, runtime_benchmarks: bool) -> (functions: HostFunctions)
        ensures
            functions == if runtime_benchmarks {
                HostFunctions::Benchmarking
            } else {
                HostFunctions::Standard
            },
    {
        if runtime_benchmarks {
            HostFunctions::Benchmarking
        } else {
            HostFunctions::Standard
        }
    }
}

/// The host functions of benchmarks are there to benchmark, and only then.
pub proof fn law_benchmark_functions_are_for_benchmarks(
    executor: ExecutorDispatch,
    runtime_benchmarks: bool,
    functions: HostFunctions,
)
    requires
        call_ensures(
            ExecutorDispatch::extend_host_functions,
            (executor, runtime_benchmarks),
            functions,
        ),
    ensures
        functions is Benchmarking <==> runtime_benchmarks,
{
}

} // verus!
