//! The algorithm capability and the metadata that describes an algorithm.

use crate::memory::MemoryManager;
use vstd::prelude::*;

verus! {

/// The kinds of parameter an algorithm can declare.
#[derive(Clone, Copy, Debug)]
pub enum ParameterType {
    Integer,
    Float,
    Boolean,
    String,
    Array,
    Object,
}

/// One declared parameter of an algorithm. It describes what the algorithm
/// expects; nothing is checked against it.
#[derive(Debug)]
pub struct ParameterDefinition {
    pub name: String,
    pub parameter_type: ParameterType,
    pub description: String,
    pub default_value: Option<String>,
}

/// The model of a [`ParameterDefinition`].
pub struct ParameterDefinitionView {
    pub name: Seq<char>,
    pub parameter_type: ParameterType,
    pub description: Seq<char>,
    pub default_value: Option<Seq<char>>,
}

impl View for ParameterDefinition {
    type V = ParameterDefinitionView;

    open spec fn view(&self) -> ParameterDefinitionView {
        ParameterDefinitionView {
            name: self.name@,
            parameter_type: self.parameter_type,
            description: self.description@,
            default_value: match self.default_value {
                Some(text) => Some(text@),
                None => None,
            },
        }
    }
}

impl Clone for ParameterDefinition {
    fn clone(&self) -> (copy: Self)
        ensures
            copy@ == self@,
    {
        ParameterDefinition {
            name: self.name.clone(),
            parameter_type: self.parameter_type,
            description: self.description.clone(),
            default_value: match &self.default_value {
                Some(text) => Some(text.clone()),
                None => None,
            },
        }
    }
}

/// Name, version, description and declared parameters of an algorithm.
#[derive(Debug)]
pub struct AlgorithmMetadata {
    pub name: String,
    pub version: String,
    pub description: String,
    pub parameters: Vec<ParameterDefinition>,
}

/// The model of an [`AlgorithmMetadata`].
pub struct AlgorithmMetadataView {
    pub name: Seq<char>,
    pub version: Seq<char>,
    pub description: Seq<char>,
    pub parameters: Seq<ParameterDefinitionView>,
}

impl AlgorithmMetadataView {
    /// No two parameters have the same name.
    pub open spec fn parameter_names_distinct(self) -> bool {
        forall|i: int, j: int|
            0 <= i < j < self.parameters.len() ==> self.parameters[i].name
                != self.parameters[j].name
    }
}

impl View for AlgorithmMetadata {
    type V = AlgorithmMetadataView;

    open spec fn view(&self) -> AlgorithmMetadataView {
        AlgorithmMetadataView {
            name: self.name@,
            version: self.version@,
            description: self.description@,
            parameters: self.parameters@.map_values(|parameter: ParameterDefinition| parameter@),
        }
    }
}

impl Clone for AlgorithmMetadata {
    fn clone(&self) -> (copy: Self)
        ensures
            copy@ == self@,
    {
        let mut parameters: Vec<ParameterDefinition> = Vec::new();
        let mut at: usize = 0;
        while at < self.parameters.len()
            invariant
                at <= self.parameters@.len(),
                parameters@.len() == at,
                forall|i: int| 0 <= i < at ==> parameters@[i]@ == self.parameters@[i]@,
            decreases self.parameters@.len() - at,
        {
            parameters.push(self.parameters[at].clone());
            at += 1;
        }
        let copy = AlgorithmMetadata {
            name: self.name.clone(),
            version: self.version.clone(),
            description: self.description.clone(),
            parameters,
        };
        assert(copy@.parameters =~= self@.parameters);
        copy
    }
}

impl AlgorithmMetadata {
    /// Whether no two declared parameters share a name.
    pub fn has_distinct_parameter_names(&self) -> (distinct: bool)
        ensures
            distinct == self@.parameter_names_distinct(),
    {
        let mut later: usize = 0;
        while later < self.parameters.len()
            invariant
                later <= self.parameters@.len(),
                forall|i: int, j: int|
                    0 <= i < j < later ==> self@.parameters[i].name != self@.parameters[j].name,
            decreases self.parameters@.len() - later,
        {
            let mut earlier: usize = 0;
            while earlier < later
                invariant
                    earlier <= later < self.parameters@.len(),
                    forall|i: int|
                        0 <= i < earlier ==> self@.parameters[i].name
                            != self@.parameters[later as int].name,
                decreases later - earlier,
            {
                if self.parameters[earlier].name == self.parameters[later].name {
                    assert(self@.parameters[earlier as int].name
                        == self@.parameters[later as int].name);
                    return false;
                }
                earlier += 1;
            }
            later += 1;
        }
        true
    }
}

/// What an invocation gave, as plain values: the output bytes or the failure
/// message.
pub open spec fn outcome_model(outcome: Result<Vec<u8>, String>) -> Result<Seq<u8>, Seq<char>> {
    match outcome {
        Ok(output) => Ok(output@),
        Err(message) => Err(message@),
    }
}

/// A unit of computation: it turns input bytes into output bytes, using the
/// memory manager it is handed for auxiliary state.
///
/// Each method comes with a spec function that says which results the method
/// may give. An implementation that is itself verified states there what it
/// does; one that leaves a spec function as it is here admits every result,
/// so nothing is taken on trust about it. What every implementation owes is
/// a well-formed memory manager after `process`; the manager's own operations
/// are the only way to change it, and each of them keeps it well-formed.
pub trait Algorithm {
    /// Whether `id` is an identifier that `id` may return. An algorithm whose
    /// identifier never changes admits exactly one.
    open spec fn id_spec(&self, id: Seq<char>) -> bool {
        true
    }

    /// Whether `metadata` is a description that `metadata` may return.
    open spec fn metadata_spec(&self, metadata: AlgorithmMetadataView) -> bool {
        true
    }

    /// Whether one invocation on `input` may take the shared memory from
    /// `before` to `after` and return `outcome`.
    open spec fn process_spec(
        &self,
        input: Seq<u8>,
        before: Map<Seq<char>, Seq<u8>>,
        after: Map<Seq<char>, Seq<u8>>,
        outcome: Result<Seq<u8>, Seq<char>>,
    ) -> bool {
        true
    }

    /// Processes `input` and returns the output, or the failure the algorithm
    /// reports.
    fn process(&self, input: &[u8], memory: &mut MemoryManager) -> (outcome: Result<
        Vec<u8>,
        String,
    >)
        requires
            old(memory).wf(),
        ensures
            final(memory).wf(),
            self.process_spec(input@, old(memory)@, final(memory)@, outcome_model(outcome)),
    ;

    /// The algorithm's identifier.
    fn id(&self) -> (id: &str)
        ensures
            self.id_spec(id@),
    ;

    /// The algorithm's metadata.
    fn metadata(&self) -> (metadata: AlgorithmMetadata)
        ensures
            self.metadata_spec(metadata@),
    ;
}

/// A boxed algorithm is the algorithm in the box, so a registry can hold
/// implementations of different types as `Box<dyn Algorithm>`.
impl<T: Algorithm + ?Sized> Algorithm for Box<T> {
    open spec fn id_spec(&self, id: Seq<char>) -> bool {
        (**self).id_spec(id)
    }

    open spec fn metadata_spec(&self, metadata: AlgorithmMetadataView) -> bool {
        (**self).metadata_spec(metadata)
    }

    open spec fn process_spec(
        &self,
        input: Seq<u8>,
        before: Map<Seq<char>, Seq<u8>>,
        after: Map<Seq<char>, Seq<u8>>,
        outcome: Result<Seq<u8>, Seq<char>>,
    ) -> bool {
        (**self).process_spec(input, before, after, outcome)
    }

    fn process(&self, input: &[u8], memory: &mut MemoryManager) -> (outcome: Result<
        Vec<u8>,
        String,
    >) {
        (**self).process(input, memory)
    }

    fn id(&self) -> (id: &str) {
        (**self).id()
    }

    fn metadata(&self) -> (metadata: AlgorithmMetadata) {
        (**self).metadata()
    }
}

} // verus!
