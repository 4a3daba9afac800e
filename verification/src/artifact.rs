use crate::ast::{
    Contract, ContractV, EventDefinitionV, FunctionDefinitionV, duplicate_strings,
};
use vstd::prelude::*;

verus! {

// ---------------------------------------------------------------------------
// Artifact and interface description
//
// The artifact is the accumulated output record of a generation session:
// deployable bytecode, runtime-only bytecode, and an optional interface
// description.  It is created on first write and mutated in place
// thereafter; each field, once set, holds a complete value.
// ---------------------------------------------------------------------------

/// One externally callable function of the interface description.
#[derive(Debug)]
pub struct AbiFunction {
    /// The function's name.
    pub name: String,
    /// The input types, in declaration order.
    pub inputs: Vec<String>,
    /// The output types, in declaration order.
    pub outputs: Vec<String>,
}

/// One event of the interface description.
#[derive(Debug)]
pub struct AbiEvent {
    /// The event's name.
    pub name: String,
    /// The parameter types, in declaration order.
    pub inputs: Vec<String>,
}

/// The interface description derived from the syntax tree.
#[derive(Debug)]
pub struct Abi {
    /// The callable functions, in declaration order.
    pub functions: Vec<AbiFunction>,
    /// The events, in declaration order.
    pub events: Vec<AbiEvent>,
}

/// The accumulated output of code generation.
#[derive(Debug)]
pub struct Artifact {
    /// The full deployment payload, hex-encoded.
    pub bytecode: String,
    /// The runtime-only bytecode, hex-encoded.
    pub runtime: String,
    /// The interface description, once generated.
    pub abi: Option<Abi>,
}

/// Model of an interface function.
#[verifier::ext_equal]
pub struct AbiFunctionV {
    /// The function's name.
    pub name: Seq<char>,
    /// The input types.
    pub inputs: Seq<Seq<char>>,
    /// The output types.
    pub outputs: Seq<Seq<char>>,
}

/// Model of an interface event.
#[verifier::ext_equal]
pub struct AbiEventV {
    /// The event's name.
    pub name: Seq<char>,
    /// The parameter types.
    pub inputs: Seq<Seq<char>>,
}

/// Model of an interface description.
#[verifier::ext_equal]
pub struct AbiV {
    /// The callable functions.
    pub functions: Seq<AbiFunctionV>,
    /// The events.
    pub events: Seq<AbiEventV>,
}

/// Model of an artifact.
#[verifier::ext_equal]
pub struct ArtifactV {
    /// The deployment payload.
    pub bytecode: Seq<char>,
    /// The runtime bytecode.
    pub runtime: Seq<char>,
    /// The interface description.
    pub abi: Option<AbiV>,
}

impl DeepView for AbiFunction {
    type V = AbiFunctionV;

    open spec fn deep_view(&self) -> AbiFunctionV {
        AbiFunctionV {
            name: self.name@,
            inputs: self.inputs.deep_view(),
            outputs: self.outputs.deep_view(),
        }
    }
}

impl DeepView for AbiEvent {
    type V = AbiEventV;

    open spec fn deep_view(&self) -> AbiEventV {
        AbiEventV { name: self.name@, inputs: self.inputs.deep_view() }
    }
}

impl DeepView for Abi {
    type V = AbiV;

    open spec fn deep_view(&self) -> AbiV {
        AbiV { functions: self.functions.deep_view(), events: self.events.deep_view() }
    }
}

impl DeepView for Artifact {
    type V = ArtifactV;

    open spec fn deep_view(&self) -> ArtifactV {
        ArtifactV { bytecode: self.bytecode@, runtime: self.runtime@, abi: self.abi.deep_view() }
    }
}

// ---------------------------------------------------------------------------
// Interface generation: a structural conversion of the tree's function and
// event declarations, in declaration order.
// ---------------------------------------------------------------------------

/// The interface entry of a declared function.
pub open spec fn abi_function_of(f: FunctionDefinitionV) -> AbiFunctionV {
    AbiFunctionV { name: f.name, inputs: f.inputs, outputs: f.outputs }
}

/// The interface entry of a declared event.
pub open spec fn abi_event_of(e: EventDefinitionV) -> AbiEventV {
    AbiEventV { name: e.name, inputs: e.inputs }
}

/// The interface description of a tree: its function and event declarations,
/// converted one for one, order kept.
pub open spec fn abi_of(c: ContractV) -> AbiV {
    AbiV {
        functions: c.functions.map_values(|f: FunctionDefinitionV| abi_function_of(f)),
        events: c.events.map_values(|e: EventDefinitionV| abi_event_of(e)),
    }
}

impl AbiFunction {
    /// A copy of this entry.
    pub fn duplicate(&self) -> (r: AbiFunction)
        ensures
            r.deep_view() == self.deep_view(),
    {
        AbiFunction {
            name: self.name.clone(),
            inputs: duplicate_strings(&self.inputs),
            outputs: duplicate_strings(&self.outputs),
        }
    }
}

impl AbiEvent {
    /// A copy of this entry.
    pub fn duplicate(&self) -> (r: AbiEvent)
        ensures
            r.deep_view() == self.deep_view(),
    {
        AbiEvent { name: self.name.clone(), inputs: duplicate_strings(&self.inputs) }
    }
}

impl Abi {
    /// A copy of this interface description.
    pub fn duplicate(&self) -> (r: Abi)
        ensures
            r.deep_view() == self.deep_view(),
    {
        let mut functions: Vec<AbiFunction> = Vec::new();
        let mut i: usize = 0;
        while i < self.functions.len()
            invariant
                i <= self.functions@.len(),
                functions.deep_view() =~= self.functions.deep_view().take(i as int),
            decreases self.functions@.len() - i,
        {
            let ghost prev = functions.deep_view();
            functions.push(self.functions[i].duplicate());
            proof {
                assert(functions.deep_view() =~= prev.push(self.functions.deep_view()[i as int]));
                assert(functions.deep_view() =~= self.functions.deep_view().take((i + 1) as int));
            }
            i += 1;
        }
        let mut events: Vec<AbiEvent> = Vec::new();
        let mut j: usize = 0;
        while j < self.events.len()
            invariant
                j <= self.events@.len(),
                events.deep_view() =~= self.events.deep_view().take(j as int),
            decreases self.events@.len() - j,
        {
            let ghost prev = events.deep_view();
            events.push(self.events[j].duplicate());
            proof {
                assert(events.deep_view() =~= prev.push(self.events.deep_view()[j as int]));
                assert(events.deep_view() =~= self.events.deep_view().take((j + 1) as int));
            }
            j += 1;
        }
        proof {
            assert(self.functions.deep_view().take(self.functions@.len() as int)
                =~= self.functions.deep_view());
            assert(self.events.deep_view().take(self.events@.len() as int) =~= self.events.deep_view());
            assert((Abi { functions, events }).deep_view() =~~= self.deep_view());
        }
        Abi { functions, events }
    }
}

impl Artifact {
    /// A copy of this artifact.
    pub fn duplicate(&self) -> (r: Artifact)
        ensures
            r.deep_view() == self.deep_view(),
    {
        let abi: Option<Abi> = match &self.abi {
            Some(a) => Some(a.duplicate()),
            None => None,
        };
        Artifact { bytecode: self.bytecode.clone(), runtime: self.runtime.clone(), abi }
    }
}

/// Derives the interface description from the tree: each declared function
/// and event becomes one entry, in declaration order.
pub fn generate_interface(c: &Contract) -> (r: Abi)
    ensures
        r.deep_view() == abi_of(c.deep_view()),
{
    let mut functions: Vec<AbiFunction> = Vec::new();
    let mut i: usize = 0;
    while i < c.functions.len()
        invariant
            i <= c.functions@.len(),
            functions.deep_view() =~= c.deep_view().functions.map_values(
                |f: FunctionDefinitionV| abi_function_of(f),
            ).take(i as int),
        decreases c.functions@.len() - i,
    {
        let ghost prev = functions.deep_view();
        let f = &c.functions[i];
        functions.push(
            AbiFunction {
                name: f.name.clone(),
                inputs: duplicate_strings(&f.inputs),
                outputs: duplicate_strings(&f.outputs),
            },
        );
        proof {
            assert(functions.deep_view() =~= prev.push(
                abi_function_of(c.deep_view().functions[i as int]),
            ));
            assert(functions.deep_view() =~= c.deep_view().functions.map_values(
                |f: FunctionDefinitionV| abi_function_of(f),
            ).take((i + 1) as int));
        }
        i += 1;
    }
    let mut events: Vec<AbiEvent> = Vec::new();
    let mut j: usize = 0;
    while j < c.events.len()
        invariant
            j <= c.events@.len(),
            events.deep_view() =~= c.deep_view().events.map_values(
                |e: EventDefinitionV| abi_event_of(e),
            ).take(j as int),
        decreases c.events@.len() - j,
    {
        let ghost prev = events.deep_view();
        let e = &c.events[j];
        events.push(AbiEvent { name: e.name.clone(), inputs: duplicate_strings(&e.inputs) });
        proof {
            assert(events.deep_view() =~= prev.push(abi_event_of(c.deep_view().events[j as int])));
            assert(events.deep_view() =~= c.deep_view().events.map_values(
                |e: EventDefinitionV| abi_event_of(e),
            ).take((j + 1) as int));
        }
        j += 1;
    }
    let out = Abi { functions, events };
    proof {
        assert(c.deep_view().functions.map_values(|f: FunctionDefinitionV| abi_function_of(f)).take(
            c.functions@.len() as int,
        ) =~= c.deep_view().functions.map_values(|f: FunctionDefinitionV| abi_function_of(f)));
        assert(c.deep_view().events.map_values(|e: EventDefinitionV| abi_event_of(e)).take(
            c.events@.len() as int,
        ) =~= c.deep_view().events.map_values(|e: EventDefinitionV| abi_event_of(e)));
        assert(out.deep_view() =~~= abi_of(c.deep_view()));
    }
    out
}

} // verus!
