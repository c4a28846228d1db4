//! The core engine: it owns the memory manager and dispatches an invocation
//! to the algorithm that the registry resolves.

use crate::algorithm::outcome_model;
use crate::algorithm::Algorithm;
use crate::memory::MemoryManager;
use crate::registry::get_algorithm_by_id;
use crate::registry::resolve;
use crate::registry::AlgorithmRegistry;
use vstd::prelude::*;
use vstd::string::StringExecFns;

verus! {

/// The message of a resolution failure: it names the identifier that no
/// registered algorithm has.
pub open spec fn algorithm_not_found(id: Seq<char>) -> Seq<char> {
    "Algorithm not found: "@ + id
}

/// Core execution engine. It owns one memory manager for its whole life and
/// holds no algorithm: each invocation resolves its algorithm anew in the
/// registry it is given.
pub struct CoreEngine {
    memory_manager: MemoryManager,
}

impl View for CoreEngine {
    type V = Map<Seq<char>, Seq<u8>>;

    /// The shared memory of the engine's memory manager.
    closed spec fn view(&self) -> Map<Seq<char>, Seq<u8>> {
        self.memory_manager@
    }
}

impl CoreEngine {
    /// The engine's memory manager is well-formed.
    pub closed spec fn wf(&self) -> bool {
        self.memory_manager.wf()
    }

    /// An engine with a fresh, empty memory manager.
    pub fn new() -> (engine: Self)
        ensures
            engine.wf(),
            engine@ == Map::<Seq<char>, Seq<u8>>::empty(),
    {
        CoreEngine { memory_manager: MemoryManager::new() }
    }

    /// Runs the algorithm registered under `algorithm_id` on `input_data`,
    /// with the engine's memory manager, and returns what the algorithm
    /// returns, output or failure, unchanged. Where `registry` has no such
    /// algorithm the call fails with [`algorithm_not_found`] and the engine,
    /// its memory included, is as it was.
    pub fn execute_algorithm<A: Algorithm>(
        &mut self,
        registry: &AlgorithmRegistry<A>,
        algorithm_id: &str,
        input_data: &[u8],
    ) -> (outcome: Result<Vec<u8>, String>)
        requires
            old(self).wf(),
            registry.wf(),
        ensures
            final(self).wf(),
            match resolve(registry@, algorithm_id@) {
                Some(algorithm) => algorithm.process_spec(
                    input_data@,
                    old(self)@,
                    final(self)@,
                    outcome_model(outcome),
                ),
                None => outcome_model(outcome) == Err::<Seq<u8>, Seq<char>>(
                    algorithm_not_found(algorithm_id@),
                ) && *final(self) == *old(self),
            },
    {
        let algorithm = match self.get_algorithm(registry, algorithm_id) {
            Some(algorithm) => algorithm,
            None => {
                return Err(String::from_str("Algorithm not found: ").concat(algorithm_id));
            },
        };
        algorithm.process(input_data, &mut self.memory_manager)
    }

    /// The algorithm that `registry` holds under `algorithm_id`.
    fn get_algorithm<'r, A: Algorithm>(
        &self,
        registry: &'r AlgorithmRegistry<A>,
        algorithm_id: &str,
    ) -> (found: Option<&'r A>)
        requires
            registry.wf(),
        ensures
            match found {
                Some(algorithm) => resolve(registry@, algorithm_id@) == Some(*algorithm),
                None => resolve(registry@, algorithm_id@) is None,
            },
    {
        get_algorithm_by_id(registry, algorithm_id)
    }

    /// The engine's memory manager, to look at what algorithms left in it.
    pub fn memory_manager(&self) -> (manager: &MemoryManager)
        requires
            self.wf(),
        ensures
            manager.wf(),
            manager@ == self@,
    {
        &self.memory_manager
    }
}

impl Default for CoreEngine {
    fn default() -> (engine: Self)
        ensures
            engine.wf(),
            engine@ == Map::<Seq<char>, Seq<u8>>::empty(),
    {
        CoreEngine::new()
    }
}

} // verus!
