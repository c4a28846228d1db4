//! The algorithm registry: the table that resolves an identifier to the
//! algorithm registered under it.

use crate::algorithm::Algorithm;
use vstd::hash_map::StringHashMap;
use vstd::prelude::*;
use vstd::string::StringExecFns;

verus! {

/// The algorithm that `table` holds under `id`, if there is one.
pub open spec fn resolve<A>(table: Map<Seq<char>, A>, id: Seq<char>) -> Option<A> {
    if table.contains_key(id) {
        Some(table[id])
    } else {
        None
    }
}

/// The outcome of registering `algorithm`, which gave `id` as its identifier,
/// in `table`: the table afterwards, and whether the algorithm was entered.
/// An identifier that is taken keeps its algorithm.
pub open spec fn registered<A>(table: Map<Seq<char>, A>, id: Seq<char>, algorithm: A) -> (
    Map<Seq<char>, A>,
    bool,
) {
    if table.contains_key(id) {
        (table, false)
    } else {
        (table.insert(id, algorithm), true)
    }
}

/// The message of a failure to build an algorithm from a definition.
pub open spec fn not_implemented() -> Seq<char> {
    "Not implemented yet"@
}

/// Resolving the identifier under which an algorithm has just been entered
/// gives that very algorithm: what it answers for its identifier and its
/// metadata is what the registered algorithm answers.
pub proof fn lemma_register_then_resolve<A: Algorithm>(
    table: Map<Seq<char>, A>,
    id: Seq<char>,
    algorithm: A,
)
    requires
        !table.contains_key(id),
    ensures
        registered(table, id, algorithm).1,
        resolve(registered(table, id, algorithm).0, id) == Some(algorithm),
{
}

/// Registering an algorithm changes what no other identifier resolves to.
pub proof fn lemma_register_keeps_others<A: Algorithm>(
    table: Map<Seq<char>, A>,
    id: Seq<char>,
    algorithm: A,
    other: Seq<char>,
)
    requires
        other != id,
    ensures
        resolve(registered(table, id, algorithm).0, other) == resolve(table, other),
{
}

/// Registering under an identifier that is taken changes nothing: the
/// identifier still resolves to the algorithm that had it.
pub proof fn lemma_register_taken_id<A: Algorithm>(
    table: Map<Seq<char>, A>,
    id: Seq<char>,
    algorithm: A,
)
    requires
        table.contains_key(id),
    ensures
        registered(table, id, algorithm) == (table, false),
        resolve(registered(table, id, algorithm).0, id) == Some(table[id]),
{
}

/// The table of registered algorithms, keyed by identifier. It is filled
/// through `register`, which needs the registry mutably, and read through
/// `get_by_id`; an identifier is taken by at most one algorithm.
#[verifier::reject_recursive_types(A)]
pub struct AlgorithmRegistry<A: Algorithm> {
    table: StringHashMap<A>,
}

impl<A: Algorithm> View for AlgorithmRegistry<A> {
    type V = Map<Seq<char>, A>;

    closed spec fn view(&self) -> Map<Seq<char>, A> {
        self.table@
    }
}

impl<A: Algorithm> AlgorithmRegistry<A> {
    /// Every algorithm stands under an identifier of its own.
    pub open spec fn wf(&self) -> bool {
        forall|id: Seq<char>| #[trigger] self@.contains_key(id) ==> self@[id].id_spec(id)
    }

    /// A registry with no algorithm in it.
    pub fn new() -> (registry: Self)
        ensures
            registry.wf(),
            registry@ == Map::<Seq<char>, A>::empty(),
    {
        AlgorithmRegistry { table: StringHashMap::new() }
    }

    /// Asks `algorithm` for its identifier, once, and enters it under that
    /// identifier. Where the identifier is already taken the registry stays
    /// as it was and the result is `false`.
    pub fn register(&mut self, algorithm: A) -> (entered: bool)
        requires
            old(self).wf(),
        ensures
            final(self).wf(),
            exists|id: Seq<char>| #[trigger]
                algorithm.id_spec(id) && (final(self)@, entered) == registered(
                    old(self)@,
                    id,
                    algorithm,
                ),
    {
        let id = algorithm.id().to_owned();
        if self.table.contains_key(id.as_str()) {
            assert((self@, false) == registered(old(self)@, id@, algorithm));
            false
        } else {
            self.table.insert(id, algorithm);
            assert forall|other: Seq<char>| #[trigger] self@.contains_key(other) implies self@[other].id_spec(
                other,
            ) by {
                if other != id@ {
                    assert(old(self)@.contains_key(other));
                }
            }
            assert((self@, true) == registered(old(self)@, id@, algorithm));
            true
        }
    }

    /// The algorithm registered under `id`, or `None` where there is none.
    /// Nothing is built for the call: the result refers to the registered
    /// instance.
    pub fn get_by_id(&self, id: &str) -> (found: Option<&A>)
        requires
            self.wf(),
        ensures
            match found {
                Some(algorithm) => resolve(self@, id@) == Some(*algorithm) && algorithm.id_spec(
                    id@,
                ),
                None => resolve(self@, id@) is None,
            },
    {
        self.table.get(id)
    }
}

/// Looks `algorithm_id` up in `registry`.
pub fn get_algorithm_by_id<'r, A: Algorithm>(
    registry: &'r AlgorithmRegistry<A>,
    algorithm_id: &str,
) -> (found: Option<&'r A>)
    requires
        registry.wf(),
    ensures
        match found {
            Some(algorithm) => resolve(registry@, algorithm_id@) == Some(*algorithm)
                && algorithm.id_spec(algorithm_id@),
            None => resolve(registry@, algorithm_id@) is None,
        },
{
    registry.get_by_id(algorithm_id)
}

/// Building an algorithm from a textual definition is not offered: every
/// definition is answered with the failure [`not_implemented`].
pub fn create_algorithm_from_json(json_definition: &str) -> (built: Result<
    Box<dyn Algorithm>,
    String,
>)
    ensures
        built matches Err(message) && message@ == not_implemented(),
{
    Err(String::from_str("Not implemented yet"))
}

} // verus!
