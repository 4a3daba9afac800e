use vstd::prelude::*;

verus! {

// ---------------------------------------------------------------------------
// Syntax tree
//
// The tree is the read-only input of code generation: an ordered collection of
// macro definitions and an ordered collection of constant definitions, plus
// the interface declarations that the ABI is derived from.  Lookups by name
// are linear scans that return the first match.
// ---------------------------------------------------------------------------

/// An atomic, hex-encoded string standing for one or more concrete output
/// bytes.  Concatenating byte units in order forms the final bytecode string.
#[derive(Debug)]
pub struct Byte(pub String);

/// A reference to a macro by name, to be inlined where it stands.
#[derive(Debug)]
pub struct MacroInvocation {
    /// The name of the invoked macro.
    pub macro_name: String,
}

/// A statement nested in a macro body.  Only a macro invocation is valid once
/// code generation is reached; any other kind surfaces as
/// `InvalidMacroStatement`.
#[derive(Debug)]
pub enum Statement {
    /// An invocation of another macro, inlined at this position.
    MacroInvocation(MacroInvocation),
    /// A jump label; labels are resolved by an earlier pass and must not
    /// reach code generation.
    Label(String),
}

/// One item of a macro's intermediate representation.
#[derive(Debug)]
pub enum IRByte {
    /// An already-resolved fragment, emitted verbatim.
    Byte(Byte),
    /// A named constant, resolved at expansion time.
    Constant(String),
    /// A nested statement.
    Statement(Statement),
}

/// The value of a constant definition.
#[derive(Debug)]
pub enum ConstVal {
    /// A fixed byte sequence, push-encoded at its own width.
    Literal(Vec<u8>),
    /// A placeholder for an automatically assigned storage slot.
    FreeStoragePointer,
}

/// A named constant of the tree.
#[derive(Debug)]
pub struct ConstantDefinition {
    /// The constant's name.
    pub name: String,
    /// The constant's value.
    pub value: ConstVal,
}

/// A named, reusable body of IR that may invoke other macros.
#[derive(Debug)]
pub struct MacroDefinition {
    /// The macro's name.
    pub name: String,
    /// The macro's body, in emission order.
    pub ir: Vec<IRByte>,
}

/// An externally callable function declared by the contract.
#[derive(Debug)]
pub struct FunctionDefinition {
    /// The function's name.
    pub name: String,
    /// The declared input types, in order.
    pub inputs: Vec<String>,
    /// The declared output types, in order.
    pub outputs: Vec<String>,
}

/// An event declared by the contract.
#[derive(Debug)]
pub struct EventDefinition {
    /// The event's name.
    pub name: String,
    /// The declared parameter types, in order.
    pub inputs: Vec<String>,
}

/// A parsed contract: the input syntax tree of code generation.
#[derive(Debug)]
pub struct Contract {
    /// The macro definitions, in declaration order.
    pub macros: Vec<MacroDefinition>,
    /// The constant definitions, in declaration order.
    pub constants: Vec<ConstantDefinition>,
    /// The function declarations, in declaration order.
    pub functions: Vec<FunctionDefinition>,
    /// The event declarations, in declaration order.
    pub events: Vec<EventDefinition>,
}

// ---------------------------------------------------------------------------
// Mathematical models
//
// Each syntax-tree type has a ghost counterpart over `Seq`, reached through
// `DeepView`.  All contracts in this crate speak over these models.
// ---------------------------------------------------------------------------

/// Model of a statement.
#[verifier::ext_equal]
pub enum StatementV {
    /// An invocation of the named macro.
    MacroInvocation(Seq<char>),
    /// A label, invalid at this stage.
    Label(Seq<char>),
}

/// Model of an IR item.
#[verifier::ext_equal]
pub enum IRByteV {
    /// A verbatim fragment.
    Byte(Seq<char>),
    /// A named constant reference.
    Constant(Seq<char>),
    /// A nested statement.
    Statement(StatementV),
}

/// Model of a constant's value.
#[verifier::ext_equal]
pub enum ConstValV {
    /// A fixed byte sequence.
    Literal(Seq<u8>),
    /// A storage-slot placeholder.
    FreeStoragePointer,
}

/// Model of a constant definition.
#[verifier::ext_equal]
pub struct ConstantDefinitionV {
    /// The constant's name.
    pub name: Seq<char>,
    /// The constant's value.
    pub value: ConstValV,
}

/// Model of a macro definition.
#[verifier::ext_equal]
pub struct MacroDefinitionV {
    /// The macro's name.
    pub name: Seq<char>,
    /// The macro's body.
    pub ir: Seq<IRByteV>,
}

/// Model of a function declaration.
#[verifier::ext_equal]
pub struct FunctionDefinitionV {
    /// The function's name.
    pub name: Seq<char>,
    /// The input types.
    pub inputs: Seq<Seq<char>>,
    /// The output types.
    pub outputs: Seq<Seq<char>>,
}

/// Model of an event declaration.
#[verifier::ext_equal]
pub struct EventDefinitionV {
    /// The event's name.
    pub name: Seq<char>,
    /// The parameter types.
    pub inputs: Seq<Seq<char>>,
}

/// Model of a contract.
#[verifier::ext_equal]
pub struct ContractV {
    /// The macro definitions.
    pub macros: Seq<MacroDefinitionV>,
    /// The constant definitions.
    pub constants: Seq<ConstantDefinitionV>,
    /// The function declarations.
    pub functions: Seq<FunctionDefinitionV>,
    /// The event declarations.
    pub events: Seq<EventDefinitionV>,
}

impl DeepView for Byte {
    type V = Seq<char>;

    open spec fn deep_view(&self) -> Seq<char> {
        self.0@
    }
}

impl DeepView for MacroInvocation {
    type V = Seq<char>;

    open spec fn deep_view(&self) -> Seq<char> {
        self.macro_name@
    }
}

impl DeepView for Statement {
    type V = StatementV;

    open spec fn deep_view(&self) -> StatementV {
        match self {
            Statement::MacroInvocation(mi) => StatementV::MacroInvocation(mi.macro_name@),
            Statement::Label(l) => StatementV::Label(l@),
        }
    }
}

impl DeepView for IRByte {
    type V = IRByteV;

    open spec fn deep_view(&self) -> IRByteV {
        match self {
            IRByte::Byte(b) => IRByteV::Byte(b.0@),
            IRByte::Constant(name) => IRByteV::Constant(name@),
            IRByte::Statement(s) => IRByteV::Statement(s.deep_view()),
        }
    }
}

impl DeepView for ConstVal {
    type V = ConstValV;

    open spec fn deep_view(&self) -> ConstValV {
        match self {
            ConstVal::Literal(l) => ConstValV::Literal(l@),
            ConstVal::FreeStoragePointer => ConstValV::FreeStoragePointer,
        }
    }
}

impl DeepView for ConstantDefinition {
    type V = ConstantDefinitionV;

    open spec fn deep_view(&self) -> ConstantDefinitionV {
        ConstantDefinitionV { name: self.name@, value: self.value.deep_view() }
    }
}

impl DeepView for MacroDefinition {
    type V = MacroDefinitionV;

    open spec fn deep_view(&self) -> MacroDefinitionV {
        MacroDefinitionV { name: self.name@, ir: self.ir.deep_view() }
    }
}

impl DeepView for FunctionDefinition {
    type V = FunctionDefinitionV;

    open spec fn deep_view(&self) -> FunctionDefinitionV {
        FunctionDefinitionV {
            name: self.name@,
            inputs: self.inputs.deep_view(),
            outputs: self.outputs.deep_view(),
        }
    }
}

impl DeepView for EventDefinition {
    type V = EventDefinitionV;

    open spec fn deep_view(&self) -> EventDefinitionV {
        EventDefinitionV { name: self.name@, inputs: self.inputs.deep_view() }
    }
}

impl DeepView for Contract {
    type V = ContractV;

    open spec fn deep_view(&self) -> ContractV {
        ContractV {
            macros: self.macros.deep_view(),
            constants: self.constants.deep_view(),
            functions: self.functions.deep_view(),
            events: self.events.deep_view(),
        }
    }
}

// ---------------------------------------------------------------------------
// Name lookup: first match by name, `None` when no definition matches.
// ---------------------------------------------------------------------------

/// The first macro of `ms` whose name is `name`, if any.
pub open spec fn find_macro(ms: Seq<MacroDefinitionV>, name: Seq<char>) -> Option<MacroDefinitionV>
    decreases ms.len(),
{
    if ms.len() == 0 {
        None
    } else if ms[0].name == name {
        Some(ms[0])
    } else {
        find_macro(ms.drop_first(), name)
    }
}

/// The first constant of `cs` whose name is `name`, if any.
pub open spec fn find_constant(
    cs: Seq<ConstantDefinitionV>,
    name: Seq<char>,
) -> Option<ConstantDefinitionV>
    decreases cs.len(),
{
    if cs.len() == 0 {
        None
    } else if cs[0].name == name {
        Some(cs[0])
    } else {
        find_constant(cs.drop_first(), name)
    }
}

/// Skipping a prefix that holds no match leaves the lookup unchanged.
pub proof fn lemma_find_macro_skip(ms: Seq<MacroDefinitionV>, name: Seq<char>, i: int)
    requires
        0 <= i <= ms.len(),
        forall|j: int| 0 <= j < i ==> ms[j].name != name,
    ensures
        find_macro(ms, name) == find_macro(ms.skip(i), name),
    decreases i,
{
    if i > 0 {
        lemma_find_macro_skip(ms, name, i - 1);
        assert(ms.skip(i - 1)[0] == ms[i - 1]);
        assert(ms.skip(i - 1).drop_first() =~= ms.skip(i));
        assert(find_macro(ms.skip(i - 1), name) == find_macro(ms.skip(i - 1).drop_first(), name));
    } else {
        assert(ms.skip(0) =~= ms);
    }
}

/// Skipping a prefix that holds no match leaves the lookup unchanged.
pub proof fn lemma_find_constant_skip(cs: Seq<ConstantDefinitionV>, name: Seq<char>, i: int)
    requires
        0 <= i <= cs.len(),
        forall|j: int| 0 <= j < i ==> cs[j].name != name,
    ensures
        find_constant(cs, name) == find_constant(cs.skip(i), name),
    decreases i,
{
    if i > 0 {
        lemma_find_constant_skip(cs, name, i - 1);
        assert(cs.skip(i - 1)[0] == cs[i - 1]);
        assert(cs.skip(i - 1).drop_first() =~= cs.skip(i));
        assert(find_constant(cs.skip(i - 1), name) == find_constant(
            cs.skip(i - 1).drop_first(),
            name,
        ));
    } else {
        assert(cs.skip(0) =~= cs);
    }
}

/// A found macro carries the looked-up name and stands in the sequence.
pub proof fn lemma_find_macro_found(ms: Seq<MacroDefinitionV>, name: Seq<char>)
    requires
        find_macro(ms, name) is Some,
    ensures
        find_macro(ms, name).unwrap().name == name,
        ms.contains(find_macro(ms, name).unwrap()),
    decreases ms.len(),
{
    if ms.len() > 0 && ms[0].name != name {
        lemma_find_macro_found(ms.drop_first(), name);
        assert(ms.drop_first().contains(find_macro(ms, name).unwrap()) ==> ms.contains(
            find_macro(ms, name).unwrap(),
        )) by {
            if ms.drop_first().contains(find_macro(ms, name).unwrap()) {
                let k = choose|k: int|
                    0 <= k < ms.drop_first().len() && ms.drop_first()[k] == find_macro(
                        ms,
                        name,
                    ).unwrap();
                assert(ms[k + 1] == find_macro(ms, name).unwrap());
            }
        }
    }
}

impl Contract {
    /// Looks a macro up by name: the first definition whose name matches.
    pub fn find_macro_by_name(&self, name: &str) -> (r: Option<&MacroDefinition>)
        ensures
            (match r {
                Some(m) => find_macro(self.deep_view().macros, name@) == Some(m.deep_view()),
                None => find_macro(self.deep_view().macros, name@) is None,
            }),
    {
        let target: String = name.to_owned();
        let mut i: usize = 0;
        while i < self.macros.len()
            invariant
                i <= self.macros@.len(),
                target@ == name@,
                forall|j: int| 0 <= j < i ==> self.macros.deep_view()[j].name != name@,
            decreases self.macros@.len() - i,
        {
            if self.macros[i].name == target {
                proof {
                    lemma_find_macro_skip(self.deep_view().macros, name@, i as int);
                    assert(self.deep_view().macros.skip(i as int)[0] == self.deep_view().macros[
                        i as int
                    ]);
                }
                return Some(&self.macros[i]);
            }
            i += 1;
        }
        proof {
            lemma_find_macro_skip(self.deep_view().macros, name@, self.macros@.len() as int);
        }
        None
    }

    /// Looks a constant up by name: the first definition whose name matches.
    pub fn find_constant_by_name(&self, name: &String) -> (r: Option<&ConstantDefinition>)
        ensures
            (match r {
                Some(c) => find_constant(self.deep_view().constants, name@) == Some(c.deep_view()),
                None => find_constant(self.deep_view().constants, name@) is None,
            }),
    {
        let mut i: usize = 0;
        while i < self.constants.len()
            invariant
                i <= self.constants@.len(),
                forall|j: int| 0 <= j < i ==> self.constants.deep_view()[j].name != name@,
            decreases self.constants@.len() - i,
        {
            if self.constants[i].name == *name {
                proof {
                    lemma_find_constant_skip(self.deep_view().constants, name@, i as int);
                    assert(self.deep_view().constants.skip(i as int)[0] == self.deep_view()
                        .constants[i as int]);
                }
                return Some(&self.constants[i]);
            }
            i += 1;
        }
        proof {
            lemma_find_constant_skip(self.deep_view().constants, name@, self.constants@.len() as int);
        }
        None
    }
}

// ---------------------------------------------------------------------------
// Copies
//
// The session hands trees and macros out by value; these make model-equal
// copies, field for field.
// ---------------------------------------------------------------------------

/// A copy of a string list, element for element.
pub(crate) fn duplicate_strings(v: &Vec<String>) -> (r: Vec<String>)
    ensures
        r.deep_view() == v.deep_view(),
{
    let mut out: Vec<String> = Vec::new();
    let mut i: usize = 0;
    while i < v.len()
        invariant
            i <= v@.len(),
            out.deep_view() =~= v.deep_view().take(i as int),
        decreases v@.len() - i,
    {
        let ghost prev = out.deep_view();
        out.push(v[i].clone());
        proof {
            assert(out.deep_view() =~= prev.push(v.deep_view()[i as int]));
            assert(out.deep_view() =~= v.deep_view().take((i + 1) as int));
        }
        i += 1;
    }
    proof {
        assert(v.deep_view().take(v@.len() as int) =~= v.deep_view());
    }
    out
}

/// A copy of a byte list, element for element.
pub(crate) fn duplicate_bytes(v: &Vec<u8>) -> (r: Vec<u8>)
    ensures
        r@ == v@,
{
    let mut out: Vec<u8> = Vec::new();
    let mut i: usize = 0;
    while i < v.len()
        invariant
            i <= v@.len(),
            out@ =~= v@.take(i as int),
        decreases v@.len() - i,
    {
        out.push(v[i]);
        proof {
            assert(out@ =~= v@.take((i + 1) as int));
        }
        i += 1;
    }
    proof {
        assert(v@.take(v@.len() as int) =~= v@);
    }
    out
}

impl Statement {
    /// A copy of this statement.
    pub fn duplicate(&self) -> (r: Statement)
        ensures
            r.deep_view() == self.deep_view(),
    {
        match self {
            Statement::MacroInvocation(mi) => Statement::MacroInvocation(
                MacroInvocation { macro_name: mi.macro_name.clone() },
            ),
            Statement::Label(l) => Statement::Label(l.clone()),
        }
    }
}

impl IRByte {
    /// A copy of this IR item.
    pub fn duplicate(&self) -> (r: IRByte)
        ensures
            r.deep_view() == self.deep_view(),
    {
        match self {
            IRByte::Byte(b) => IRByte::Byte(Byte(b.0.clone())),
            IRByte::Constant(name) => IRByte::Constant(name.clone()),
            IRByte::Statement(s) => IRByte::Statement(s.duplicate()),
        }
    }
}

impl ConstantDefinition {
    /// A copy of this constant definition.
    pub fn duplicate(&self) -> (r: ConstantDefinition)
        ensures
            r.deep_view() == self.deep_view(),
    {
        let value = match &self.value {
            ConstVal::Literal(l) => ConstVal::Literal(duplicate_bytes(l)),
            ConstVal::FreeStoragePointer => ConstVal::FreeStoragePointer,
        };
        ConstantDefinition { name: self.name.clone(), value }
    }
}

impl MacroDefinition {
    /// A copy of this macro definition.
    pub fn duplicate(&self) -> (r: MacroDefinition)
        ensures
            r.deep_view() == self.deep_view(),
    {
        let mut ir: Vec<IRByte> = Vec::new();
        let mut i: usize = 0;
        while i < self.ir.len()
            invariant
                i <= self.ir@.len(),
                ir.deep_view() =~= self.ir.deep_view().take(i as int),
            decreases self.ir@.len() - i,
        {
            let ghost prev = ir.deep_view();
            ir.push(self.ir[i].duplicate());
            proof {
                assert(ir.deep_view() =~= prev.push(self.ir.deep_view()[i as int]));
                assert(ir.deep_view() =~= self.ir.deep_view().take((i + 1) as int));
            }
            i += 1;
        }
        proof {
            assert(self.ir.deep_view().take(self.ir@.len() as int) =~= self.ir.deep_view());
        }
        MacroDefinition { name: self.name.clone(), ir }
    }
}

impl FunctionDefinition {
    /// A copy of this function declaration.
    pub fn duplicate(&self) -> (r: FunctionDefinition)
        ensures
            r.deep_view() == self.deep_view(),
    {
        FunctionDefinition {
            name: self.name.clone(),
            inputs: duplicate_strings(&self.inputs),
            outputs: duplicate_strings(&self.outputs),
        }
    }
}

impl EventDefinition {
    /// A copy of this event declaration.
    pub fn duplicate(&self) -> (r: EventDefinition)
        ensures
            r.deep_view() == self.deep_view(),
    {
        EventDefinition { name: self.name.clone(), inputs: duplicate_strings(&self.inputs) }
    }
}

impl Contract {
    /// A copy of this tree.
    pub fn duplicate(&self) -> (r: Contract)
        ensures
            r.deep_view() == self.deep_view(),
    {
        let mut macros: Vec<MacroDefinition> = Vec::new();
        let mut i: usize = 0;
        while i < self.macros.len()
            invariant
                i <= self.macros@.len(),
                macros.deep_view() =~= self.macros.deep_view().take(i as int),
            decreases self.macros@.len() - i,
        {
            let ghost prev = macros.deep_view();
            macros.push(self.macros[i].duplicate());
            proof {
                assert(macros.deep_view() =~= prev.push(self.macros.deep_view()[i as int]));
                assert(macros.deep_view() =~= self.macros.deep_view().take((i + 1) as int));
            }
            i += 1;
        }
        let mut constants: Vec<ConstantDefinition> = Vec::new();
        let mut j: usize = 0;
        while j < self.constants.len()
            invariant
                j <= self.constants@.len(),
                constants.deep_view() =~= self.constants.deep_view().take(j as int),
            decreases self.constants@.len() - j,
        {
            let ghost prev = constants.deep_view();
            constants.push(self.constants[j].duplicate());
            proof {
                assert(constants.deep_view() =~= prev.push(self.constants.deep_view()[j as int]));
                assert(constants.deep_view() =~= self.constants.deep_view().take((j + 1) as int));
            }
            j += 1;
        }
        let mut functions: Vec<FunctionDefinition> = Vec::new();
        let mut k: usize = 0;
        while k < self.functions.len()
            invariant
                k <= self.functions@.len(),
                functions.deep_view() =~= self.functions.deep_view().take(k as int),
            decreases self.functions@.len() - k,
        {
            let ghost prev = functions.deep_view();
            functions.push(self.functions[k].duplicate());
            proof {
                assert(functions.deep_view() =~= prev.push(self.functions.deep_view()[k as int]));
                assert(functions.deep_view() =~= self.functions.deep_view().take((k + 1) as int));
            }
            k += 1;
        }
        let mut events: Vec<EventDefinition> = Vec::new();
        let mut m: usize = 0;
        while m < self.events.len()
            invariant
                m <= self.events@.len(),
                events.deep_view() =~= self.events.deep_view().take(m as int),
            decreases self.events@.len() - m,
        {
            let ghost prev = events.deep_view();
            events.push(self.events[m].duplicate());
            proof {
                assert(events.deep_view() =~= prev.push(self.events.deep_view()[m as int]));
                assert(events.deep_view() =~= self.events.deep_view().take((m + 1) as int));
            }
            m += 1;
        }
        let out = Contract { macros, constants, functions, events };
        proof {
            assert(self.macros.deep_view().take(self.macros@.len() as int) =~= self.macros.deep_view());
            assert(self.constants.deep_view().take(self.constants@.len() as int) =~= self.constants.deep_view());
            assert(self.functions.deep_view().take(self.functions@.len() as int) =~= self.functions.deep_view());
            assert(self.events.deep_view().take(self.events@.len() as int) =~= self.events.deep_view());
            assert(out.deep_view() =~~= self.deep_view());
        }
        out
    }
}

} // verus!
