use crate::ast::{
    Byte, ConstVal, ConstValV, ConstantDefinitionV, Contract, ContractV, IRByte, IRByteV,
    MacroDefinition, MacroDefinitionV, Statement, StatementV, find_constant, find_macro,
    lemma_find_macro_found,
};
use crate::error::{CodegenError, CodegenErrorKind};
use crate::hexstr::{byte_hex, byte_to_hex, bytes_to_hex, hex_of};
use vstd::prelude::*;

verus! {

broadcast use vstd::seq_lib::seq_to_set_is_finite, vstd::set::group_set_axioms;

// ---------------------------------------------------------------------------
// Macro expansion
//
// A macro's IR is walked in declaration order and turned into a flat sequence
// of byte units: verbatim fragments are kept as they stand, constant
// references are resolved and push-encoded, and macro invocations are
// expanded recursively and inlined in place.  A set of the names currently
// being expanded is threaded through the recursion, so that a cyclic macro
// graph is reported as an error instead of recursing without bound.
// ---------------------------------------------------------------------------

/// The names of the macros that the tree defines.
pub open spec fn macro_names(c: ContractV) -> Set<Seq<char>> {
    c.macros.map_values(|m: MacroDefinitionV| m.name).to_set()
}

/// How many defined macro names are not yet on the expansion stack: the
/// termination measure of the recursion.
pub open spec fn expand_measure(c: ContractV, active: Set<Seq<char>>) -> nat {
    macro_names(c).difference(active).len()
}

/// A constant definition is well formed when a literal value holds between
/// one and thirty-two bytes, the widths the push-opcode family can carry.
pub open spec fn constant_wf(cd: ConstantDefinitionV) -> bool {
    match cd.value {
        ConstValV::Literal(l) => 1 <= l.len() <= 32,
        ConstValV::FreeStoragePointer => true,
    }
}

/// A tree is well formed when each of its constant definitions is.
pub open spec fn contract_wf(c: ContractV) -> bool {
    forall|i: int| 0 <= i < c.constants.len() ==> constant_wf(#[trigger] c.constants[i])
}

/// The push-encoded byte unit of a resolved constant value: the opcode
/// `0x5f + n` for a value of `n` bytes, then the value's own hex digits at
/// their minimal width.  A free storage pointer resolves to a one-byte push
/// of offset zero, a placeholder pending a real slot-assignment rule.
pub open spec fn push_encoding(v: ConstValV) -> Seq<char> {
    match v {
        ConstValV::Literal(l) => byte_hex((95 + l.len()) as u8) + hex_of(l),
        ConstValV::FreeStoragePointer => byte_hex(0x60) + byte_hex(0x00),
    }
}

/// The elements of a sequence extended by one are the elements so far plus
/// the new one.
pub proof fn lemma_push_to_set<A>(s: Seq<A>, x: A)
    ensures
        s.push(x).to_set() =~= s.to_set().insert(x),
{
    assert forall|a: A| s.push(x).to_set().contains(a) implies s.to_set().insert(x).contains(
        a,
    ) by {
        let i = choose|i: int| 0 <= i < s.push(x).len() && s.push(x)[i] == a;
        if i < s.len() {
            assert(s[i] == a);
        }
    }
    assert forall|a: A| s.to_set().insert(x).contains(a) implies s.push(x).to_set().contains(
        a,
    ) by {
        if a == x {
            assert(s.push(x)[s.len() as int] == a);
        } else {
            let i = choose|i: int| 0 <= i < s.len() && s[i] == a;
            assert(s.push(x)[i] == a);
        }
    }
}

/// An empty sequence has no elements.
pub proof fn lemma_empty_to_set<A>()
    ensures
        Seq::<A>::empty().to_set() =~= Set::<A>::empty(),
{
    assert forall|a: A| !Seq::<A>::empty().to_set().contains(a) by {
        if Seq::<A>::empty().to_set().contains(a) {
            let i = choose|i: int| 0 <= i < Seq::<A>::empty().len() && Seq::<A>::empty()[i] == a;
        }
    }
}

/// Entering a defined macro that is not yet on the stack shrinks the measure.
pub proof fn lemma_measure_decreases(c: ContractV, name: Seq<char>, active: Set<Seq<char>>)
    requires
        macro_names(c).contains(name),
        !active.contains(name),
    ensures
        expand_measure(c, active.insert(name)) < expand_measure(c, active),
{
    let names = macro_names(c);
    let d = names.difference(active);
    assert(names.finite());
    assert(d.finite());
    assert(d.contains(name));
    assert(names.difference(active.insert(name)) =~= d.remove(name));
    assert(d.remove(name).len() == d.len() - 1);
}

/// A found macro's name is one of the tree's macro names.
pub proof fn lemma_found_macro_name(c: ContractV, name: Seq<char>)
    requires
        find_macro(c.macros, name) is Some,
    ensures
        macro_names(c).contains(find_macro(c.macros, name).unwrap().name),
{
    lemma_find_macro_found(c.macros, name);
    let m = find_macro(c.macros, name).unwrap();
    let k = choose|k: int| 0 <= k < c.macros.len() && c.macros[k] == m;
    assert(c.macros.map_values(|mm: MacroDefinitionV| mm.name)[k] == m.name);
    assert(c.macros.map_values(|mm: MacroDefinitionV| mm.name).contains(m.name));
}

/// The expansion of one IR item against tree `c`, with `active` the names of
/// the macros whose expansion is in progress.
pub open spec fn expand_item(c: ContractV, item: IRByteV, active: Set<Seq<char>>) -> Result<
    Seq<Seq<char>>,
    CodegenErrorKind,
>
    decreases expand_measure(c, active), 0nat, 0nat,
    via expand_item_decreases
{
    match item {
        IRByteV::Byte(b) => Ok(seq![b]),
        IRByteV::Constant(name) => match find_constant(c.constants, name) {
            Some(cd) => Ok(seq![push_encoding(cd.value)]),
            None => Err(CodegenErrorKind::MissingConstantDefinition),
        },
        IRByteV::Statement(s) => match s {
            StatementV::MacroInvocation(name) => match find_macro(c.macros, name) {
                Some(m2) => if active.contains(m2.name) {
                    Err(CodegenErrorKind::CircularMacroInvocation)
                } else {
                    match expand_items(c, m2.ir, active.insert(m2.name)) {
                        Ok(bs) => Ok(bs),
                        Err(_) => Err(CodegenErrorKind::FailedMacroRecursion),
                    }
                },
                None => Err(CodegenErrorKind::MissingMacroDefinition),
            },
            StatementV::Label(_) => Err(CodegenErrorKind::InvalidMacroStatement),
        },
    }
}

/// The expansion of an IR sequence, in order: the first failure wins, and a
/// success is the concatenation of the items' expansions.
pub open spec fn expand_items(c: ContractV, items: Seq<IRByteV>, active: Set<Seq<char>>) -> Result<
    Seq<Seq<char>>,
    CodegenErrorKind,
>
    decreases expand_measure(c, active), items.len(), 1nat,
{
    if items.len() == 0 {
        Ok(Seq::<Seq<char>>::empty())
    } else {
        match expand_item(c, items[0], active) {
            Err(e) => Err(e),
            Ok(bs) => match expand_items(c, items.drop_first(), active) {
                Err(e) => Err(e),
                Ok(rest) => Ok(bs + rest),
            },
        }
    }
}

#[via_fn]
proof fn expand_item_decreases(c: ContractV, item: IRByteV, active: Set<Seq<char>>) {
    match item {
        IRByteV::Statement(s) => match s {
            StatementV::MacroInvocation(name) => match find_macro(c.macros, name) {
                Some(m2) => {
                    if !active.contains(m2.name) {
                        lemma_found_macro_name(c, name);
                        lemma_measure_decreases(c, m2.name, active);
                    }
                },
                None => {},
            },
            StatementV::Label(_) => {},
        },
        _ => {},
    }
}

/// The expansion of a whole macro: its body, with its own name on the stack
/// from the start, so that a direct self-invocation is caught at once.
pub open spec fn expand_macro(c: ContractV, m: MacroDefinitionV) -> Result<
    Seq<Seq<char>>,
    CodegenErrorKind,
> {
    expand_items(c, m.ir, Set::<Seq<char>>::empty().insert(m.name))
}

/// The flat hex string of a byte-unit sequence: the units, concatenated in
/// order.
pub open spec fn flatten_bytes(bs: Seq<Seq<char>>) -> Seq<char>
    decreases bs.len(),
{
    if bs.len() == 0 {
        Seq::<char>::empty()
    } else {
        bs[0] + flatten_bytes(bs.drop_first())
    }
}

/// Flattening distributes over appending one unit at the end.
pub proof fn lemma_flatten_bytes_push(bs: Seq<Seq<char>>, x: Seq<char>)
    ensures
        flatten_bytes(bs.push(x)) == flatten_bytes(bs) + x,
    decreases bs.len(),
{
    if bs.len() == 0 {
        reveal_with_fuel(flatten_bytes, 2);
        assert(bs.push(x).drop_first() =~= Seq::<Seq<char>>::empty());
        assert(flatten_bytes(bs.push(x)) =~= flatten_bytes(bs) + x);
    } else {
        assert(bs.push(x).drop_first() =~= bs.drop_first().push(x));
        lemma_flatten_bytes_push(bs.drop_first(), x);
        assert(bs[0] + (flatten_bytes(bs.drop_first()) + x) =~= (bs[0] + flatten_bytes(
            bs.drop_first(),
        )) + x);
    }
}

// ---------------------------------------------------------------------------
// Executable expansion
// ---------------------------------------------------------------------------

/// Whether `name` is on the expansion stack `active`.
fn active_contains(active: &Vec<String>, name: &String) -> (b: bool)
    ensures
        b == active.deep_view().to_set().contains(name@),
{
    let mut i: usize = 0;
    while i < active.len()
        invariant
            i <= active@.len(),
            forall|j: int| 0 <= j < i ==> active.deep_view()[j] != name@,
        decreases active@.len() - i,
    {
        if active[i] == *name {
            assert(active.deep_view()[i as int] == name@);
            return true;
        }
        i += 1;
    }
    assert(!active.deep_view().contains(name@));
    false
}

/// A copy of the expansion stack, extended by one name.
fn extend_active(active: &Vec<String>, name: &String) -> (r: Vec<String>)
    ensures
        r.deep_view() == active.deep_view().push(name@),
{
    let mut out: Vec<String> = Vec::new();
    let mut i: usize = 0;
    while i < active.len()
        invariant
            i <= active@.len(),
            out.deep_view() =~= active.deep_view().take(i as int),
        decreases active@.len() - i,
    {
        let ghost prev = out.deep_view();
        let elem: String = active[i].clone();
        proof {
            assert(elem@ == active.deep_view()[i as int]);
        }
        out.push(elem);
        proof {
            assert(out.deep_view() =~= prev.push(active.deep_view()[i as int]));
            assert(out.deep_view() =~= active.deep_view().take((i + 1) as int));
        }
        i += 1;
    }
    let ghost prev = out.deep_view();
    out.push(name.clone());
    proof {
        assert(active.deep_view().take(active@.len() as int) =~= active.deep_view());
        assert(out.deep_view() =~= prev.push(name@));
        assert(out.deep_view() =~= active.deep_view().push(name@));
    }
    out
}

/// The push-encoded byte unit of a resolved constant value.
fn push_encode(v: &ConstVal) -> (r: String)
    requires
        (match v.deep_view() {
            ConstValV::Literal(l) => 1 <= l.len() <= 32,
            ConstValV::FreeStoragePointer => true,
        }),
    ensures
        r@ == push_encoding(v.deep_view()),
{
    match v {
        ConstVal::Literal(l) => {
            let hexlit = bytes_to_hex(l);
            let n: usize = l.len();
            let mut s = byte_to_hex((95 + n) as u8);
            s.append(hexlit.as_str());
            proof {
                assert(s@ =~= push_encoding(v.deep_view()));
            }
            s
        },
        ConstVal::FreeStoragePointer => {
            let mut s = byte_to_hex(0x60);
            let low = byte_to_hex(0x00);
            s.append(low.as_str());
            proof {
                assert(s@ =~= push_encoding(v.deep_view()));
            }
            s
        },
    }
}

/// A found constant is one of the tree's definitions.
pub proof fn lemma_find_constant_found(cs: Seq<ConstantDefinitionV>, name: Seq<char>)
    requires
        find_constant(cs, name) is Some,
    ensures
        cs.contains(find_constant(cs, name).unwrap()),
    decreases cs.len(),
{
    if cs.len() > 0 && cs[0].name != name {
        lemma_find_constant_found(cs.drop_first(), name);
        let c = find_constant(cs, name).unwrap();
        if cs.drop_first().contains(c) {
            let k = choose|k: int| 0 <= k < cs.drop_first().len() && cs.drop_first()[k] == c;
            assert(cs[k + 1] == c);
        }
    }
}

/// Expands one IR item.
fn expand_item_exec(c: &Contract, item: &IRByte, active: &Vec<String>) -> (r: Result<
    Vec<Byte>,
    CodegenError,
>)
    requires
        contract_wf(c.deep_view()),
    ensures
        (match (r, expand_item(c.deep_view(), item.deep_view(), active.deep_view().to_set())) {
            (Ok(v), Ok(bs)) => v.deep_view() == bs,
            (Err(e), Err(k)) => e.kind == k,
            _ => false,
        }),
    decreases expand_measure(c.deep_view(), active.deep_view().to_set()), 0nat, 0nat,
{
    match item {
        IRByte::Byte(b) => {
            let out: Vec<Byte> = vec![Byte(b.0.clone())];
            proof {
                assert(out.deep_view() =~= seq![b.0@]);
            }
            Ok(out)
        },
        IRByte::Constant(name) => {
            match c.find_constant_by_name(name) {
                None => Err(CodegenError { kind: CodegenErrorKind::MissingConstantDefinition }),
                Some(cd) => {
                    proof {
                        lemma_find_constant_found(c.deep_view().constants, name@);
                        let k = choose|k: int|
                            0 <= k < c.deep_view().constants.len() && c.deep_view().constants[k]
                                == cd.deep_view();
                        assert(constant_wf(c.deep_view().constants[k]));
                    }
                    let push = push_encode(&cd.value);
                    let out: Vec<Byte> = vec![Byte(push)];
                    proof {
                        assert(out.deep_view() =~= seq![
                            push_encoding(cd.deep_view().value),
                        ]);
                    }
                    Ok(out)
                },
            }
        },
        IRByte::Statement(s) => {
            match s {
                Statement::MacroInvocation(mi) => {
                    match c.find_macro_by_name(mi.macro_name.as_str()) {
                        None => Err(
                            CodegenError { kind: CodegenErrorKind::MissingMacroDefinition },
                        ),
                        Some(m2) => {
                            if active_contains(active, &m2.name) {
                                Err(
                                    CodegenError {
                                        kind: CodegenErrorKind::CircularMacroInvocation,
                                    },
                                )
                            } else {
                                let active2 = extend_active(active, &m2.name);
                                proof {
                                    lemma_push_to_set(active.deep_view(), m2.name@);
                                    assert(active2.deep_view().to_set() =~= active.deep_view()
                                        .to_set().insert(m2.name@));
                                    lemma_found_macro_name(c.deep_view(), mi.macro_name@);
                                    lemma_measure_decreases(
                                        c.deep_view(),
                                        m2.name@,
                                        active.deep_view().to_set(),
                                    );
                                    assert(m2.ir.deep_view().skip(0) =~= m2.ir.deep_view());
                                }
                                match expand_items_exec(c, &m2.ir, 0, &active2) {
                                    Ok(bs) => Ok(bs),
                                    Err(_) => Err(
                                        CodegenError {
                                            kind: CodegenErrorKind::FailedMacroRecursion,
                                        },
                                    ),
                                }
                            }
                        },
                    }
                },
                Statement::Label(_) => Err(
                    CodegenError { kind: CodegenErrorKind::InvalidMacroStatement },
                ),
            }
        },
    }
}

/// Expands the IR items from position `from` on, in order.
fn expand_items_exec(c: &Contract, items: &Vec<IRByte>, from: usize, active: &Vec<String>) -> (r:
    Result<Vec<Byte>, CodegenError>)
    requires
        contract_wf(c.deep_view()),
        from <= items@.len(),
    ensures
        (match (r, expand_items(
            c.deep_view(),
            items.deep_view().skip(from as int),
            active.deep_view().to_set(),
        )) {
            (Ok(v), Ok(bs)) => v.deep_view() == bs,
            (Err(e), Err(k)) => e.kind == k,
            _ => false,
        }),
    decreases expand_measure(c.deep_view(), active.deep_view().to_set()),
        items@.len() - from,
        1nat,
{
    let ghost tail = items.deep_view().skip(from as int);
    if from >= items.len() {
        proof {
            assert(tail =~= Seq::<IRByteV>::empty());
        }
        let out: Vec<Byte> = Vec::new();
        proof {
            assert(out.deep_view() =~= Seq::<Seq<char>>::empty());
        }
        return Ok(out);
    }
    proof {
        assert(tail[0] == items.deep_view()[from as int]);
        assert(tail.drop_first() =~= items.deep_view().skip(from + 1 as int));
    }
    match expand_item_exec(c, &items[from], active) {
        Err(e) => Err(e),
        Ok(mut head) => {
            match expand_items_exec(c, items, from + 1, active) {
                Err(e) => Err(e),
                Ok(mut rest) => {
                    head.append(&mut rest);
                    proof {
                        assert(head.deep_view() =~= expand_items(
                            c.deep_view(),
                            tail,
                            active.deep_view().to_set(),
                        ).unwrap());
                    }
                    Ok(head)
                },
            }
        },
    }
}

/// Expands a whole macro against tree `c`: the entry point of the recursion
/// engine, with the macro's own name opening the expansion stack.
pub fn expand_macro_exec(c: &Contract, macro_def: &MacroDefinition) -> (r: Result<
    Vec<Byte>,
    CodegenError,
>)
    requires
        contract_wf(c.deep_view()),
    ensures
        (match (r, expand_macro(c.deep_view(), macro_def.deep_view())) {
            (Ok(v), Ok(bs)) => v.deep_view() == bs,
            (Err(e), Err(k)) => e.kind == k,
            _ => false,
        }),
{
    let mut active: Vec<String> = Vec::new();
    proof {
        assert(active.deep_view() =~= Seq::<Seq<char>>::empty());
    }
    let ghost base = active.deep_view();
    active.push(macro_def.name.clone());
    proof {
        lemma_push_to_set(base, macro_def.name@);
        lemma_empty_to_set::<Seq<char>>();
        assert(active.deep_view() =~= base.push(macro_def.name@));
        assert(active.deep_view().to_set() =~= Set::<Seq<char>>::empty().insert(
            macro_def.name@,
        ));
        assert(macro_def.ir.deep_view().skip(0) =~= macro_def.ir.deep_view());
    }
    expand_items_exec(c, &macro_def.ir, 0, &active)
}

/// Joins expanded byte units into the final flat hex bytecode string.
pub fn join_bytes(bytes: &Vec<Byte>) -> (r: String)
    ensures
        r@ == flatten_bytes(bytes.deep_view()),
{
    let mut out = String::new();
    let mut i: usize = 0;
    while i < bytes.len()
        invariant
            i <= bytes@.len(),
            out@ == flatten_bytes(bytes.deep_view().take(i as int)),
        decreases bytes@.len() - i,
    {
        out.append(bytes[i].0.as_str());
        proof {
            assert(bytes.deep_view().take(i + 1 as int) =~= bytes.deep_view().take(
                i as int,
            ).push(bytes.deep_view()[i as int]));
            lemma_flatten_bytes_push(
                bytes.deep_view().take(i as int),
                bytes.deep_view()[i as int],
            );
        }
        i += 1;
    }
    proof {
        assert(bytes.deep_view().take(bytes@.len() as int) =~= bytes.deep_view());
    }
    out
}

// ---------------------------------------------------------------------------
// Laws of expansion
// ---------------------------------------------------------------------------

/// Determinism: expansion is a pure function of the tree and the macro, so
/// two expansions of the same macro against the same tree are byte-identical.
pub proof fn lemma_expand_deterministic(
    c: ContractV,
    m: MacroDefinitionV,
    r1: Result<Seq<Seq<char>>, CodegenErrorKind>,
    r2: Result<Seq<Seq<char>>, CodegenErrorKind>,
)
    requires
        r1 == expand_macro(c, m),
        r2 == expand_macro(c, m),
    ensures
        r1 == r2,
{
}

/// Order preservation: a macro whose IR is a fragment, an invocation and a
/// fragment expands to the first fragment, then the invoked macro's whole
/// expansion, then the second fragment, exactly in that order.
pub proof fn lemma_order_preservation(
    c: ContractV,
    m: MacroDefinitionV,
    a: Seq<char>,
    b: Seq<char>,
    name: Seq<char>,
    bs: Seq<Seq<char>>,
)
    requires
        m.ir == seq![
            IRByteV::Byte(a),
            IRByteV::Statement(StatementV::MacroInvocation(name)),
            IRByteV::Byte(b),
        ],
        find_macro(c.macros, name) is Some,
        !Set::<Seq<char>>::empty().insert(m.name).contains(find_macro(c.macros, name).unwrap().name),
        expand_items(
            c,
            find_macro(c.macros, name).unwrap().ir,
            Set::<Seq<char>>::empty().insert(m.name).insert(
                find_macro(c.macros, name).unwrap().name,
            ),
        ) == Ok::<Seq<Seq<char>>, CodegenErrorKind>(bs),
    ensures
        expand_macro(c, m) == Ok::<Seq<Seq<char>>, CodegenErrorKind>(seq![a] + bs + seq![b]),
{
    let active = Set::<Seq<char>>::empty().insert(m.name);
    let items = m.ir;
    reveal_with_fuel(expand_items, 5);
    assert(items[0] == IRByteV::Byte(a));
    assert(items.drop_first() =~= seq![
        IRByteV::Statement(StatementV::MacroInvocation(name)),
        IRByteV::Byte(b),
    ]);
    assert(items.drop_first().drop_first() =~= seq![IRByteV::Byte(b)]);
    assert(items.drop_first().drop_first().drop_first() =~= Seq::<IRByteV>::empty());
    assert(expand_item(c, items[0], active) == Ok::<Seq<Seq<char>>, CodegenErrorKind>(seq![a]));
    assert(expand_item(c, items.drop_first()[0], active) == Ok::<
        Seq<Seq<char>>,
        CodegenErrorKind,
    >(bs));
    assert(expand_item(c, items.drop_first().drop_first()[0], active) == Ok::<
        Seq<Seq<char>>,
        CodegenErrorKind,
    >(seq![b]));
    assert(seq![a] + (bs + (seq![b] + Seq::<Seq<char>>::empty())) =~= seq![a] + bs + seq![b]);
}

/// One failing item fails the whole sequence: expansion returns no partial
/// output.
pub proof fn lemma_failing_item_fails_sequence(
    c: ContractV,
    items: Seq<IRByteV>,
    active: Set<Seq<char>>,
    i: int,
)
    requires
        0 <= i < items.len(),
        expand_item(c, items[i], active) is Err,
    ensures
        expand_items(c, items, active) is Err,
    decreases i,
{
    if i > 0 {
        match expand_item(c, items[0], active) {
            Err(_) => {},
            Ok(_) => {
                assert(items.drop_first()[i - 1] == items[i]);
                lemma_failing_item_fails_sequence(c, items.drop_first(), active, i - 1);
            },
        }
    }
}

/// A macro one of whose IR items invokes the macro's own name cannot expand:
/// the cycle is reported as an error, never as unbounded recursion — the
/// expansion functions are total.
pub proof fn lemma_self_invocation_fails(c: ContractV, m: MacroDefinitionV, i: int)
    requires
        0 <= i < m.ir.len(),
        m.ir[i] == IRByteV::Statement(StatementV::MacroInvocation(m.name)),
    ensures
        expand_macro(c, m) is Err,
{
    let active = Set::<Seq<char>>::empty().insert(m.name);
    match find_macro(c.macros, m.name) {
        Some(m2) => {
            lemma_find_macro_found(c.macros, m.name);
            assert(m2.name == m.name);
            assert(active.contains(m2.name));
            assert(expand_item(c, m.ir[i], active) is Err);
        },
        None => {
            assert(expand_item(c, m.ir[i], active) is Err);
        },
    }
    lemma_failing_item_fails_sequence(c, m.ir, active, i);
}

/// Whether an IR item is an invocation that resolves, by first-match lookup
/// in the tree, to macro `m2`.
pub open spec fn resolves_to(c: ContractV, item: IRByteV, m2: MacroDefinitionV) -> bool {
    match item {
        IRByteV::Statement(s) => match s {
            StatementV::MacroInvocation(nm) => find_macro(c.macros, nm) == Some(m2),
            StatementV::Label(_) => false,
        },
        _ => false,
    }
}

/// Whether macro `m`'s body holds an invocation that resolves to `m2`.
pub open spec fn links_to(c: ContractV, m: MacroDefinitionV, m2: MacroDefinitionV) -> bool {
    exists|i: int| 0 <= i < m.ir.len() && #[trigger] resolves_to(c, m.ir[i], m2)
}

/// Whether `ms` is an invocation chain through the tree: each macro's body
/// invokes the next.
pub open spec fn invocation_chain(c: ContractV, ms: Seq<MacroDefinitionV>) -> bool {
    forall|k: int| 0 <= k < ms.len() - 1 ==> links_to(c, #[trigger] ms[k], ms[k + 1])
}

/// An invocation chain that leads back into a name already on the expansion
/// stack cannot expand.
proof fn lemma_chain_into_active_fails(
    c: ContractV,
    ms: Seq<MacroDefinitionV>,
    active: Set<Seq<char>>,
)
    requires
        ms.len() >= 2,
        invocation_chain(c, ms),
        active.contains(ms.last().name),
    ensures
        expand_items(c, ms[0].ir, active) is Err,
    decreases ms.len(),
{
    assert(links_to(c, ms[0], ms[1]));
    let i = choose|i: int| 0 <= i < ms[0].ir.len() && #[trigger] resolves_to(c, ms[0].ir[i], ms[1]);
    if active.contains(ms[1].name) {
        assert(expand_item(c, ms[0].ir[i], active) is Err);
    } else {
        assert(ms.len() > 2) by {
            if ms.len() == 2 {
                assert(ms.last() == ms[1]);
            }
        }
        let dms = ms.drop_first();
        assert(invocation_chain(c, dms)) by {
            assert forall|k: int| 0 <= k < dms.len() - 1 implies links_to(
                c,
                #[trigger] dms[k],
                dms[k + 1],
            ) by {
                assert(dms[k] == ms[k + 1]);
                assert(dms[k + 1] == ms[k + 2]);
            }
        }
        assert(dms.last() == ms.last());
        lemma_chain_into_active_fails(c, dms, active.insert(ms[1].name));
        assert(expand_item(c, ms[0].ir[i], active) is Err);
    }
    lemma_failing_item_fails_sequence(c, ms[0].ir, active, i);
}

/// Cyclic macros: a macro that transitively invokes itself — a chain of
/// invocations that starts at the macro and resolves back to a macro of its
/// own name — fails with a defined error rather than recursing without
/// bound.
pub proof fn lemma_cyclic_invocation_fails(c: ContractV, ms: Seq<MacroDefinitionV>)
    requires
        ms.len() >= 2,
        invocation_chain(c, ms),
        ms.last().name == ms[0].name,
    ensures
        expand_macro(c, ms[0]) is Err,
{
    lemma_chain_into_active_fails(c, ms, Set::<Seq<char>>::empty().insert(ms[0].name));
}


/// When every item before position `i` expands and item `i` fails, the
/// sequence reports exactly item `i`'s error: the first failure wins.
pub proof fn lemma_first_failure_reported(
    c: ContractV,
    items: Seq<IRByteV>,
    active: Set<Seq<char>>,
    i: int,
    k: CodegenErrorKind,
)
    requires
        0 <= i < items.len(),
        forall|j: int| 0 <= j < i ==> expand_item(c, #[trigger] items[j], active) is Ok,
        expand_item(c, items[i], active) == Err::<Seq<Seq<char>>, CodegenErrorKind>(k),
    ensures
        expand_items(c, items, active) == Err::<Seq<Seq<char>>, CodegenErrorKind>(k),
    decreases i,
{
    if i > 0 {
        assert(expand_item(c, items[0], active) is Ok);
        assert(items.drop_first()[i - 1] == items[i]);
        assert forall|j: int| 0 <= j < i - 1 implies expand_item(
            c,
            #[trigger] items.drop_first()[j],
            active,
        ) is Ok by {
            assert(items.drop_first()[j] == items[j + 1]);
        }
        lemma_first_failure_reported(c, items.drop_first(), active, i - 1, k);
    }
}

/// A missing macro cannot expand: a body one of whose items invokes a name
/// that no macro of the tree carries fails, never yielding empty output.
pub proof fn lemma_missing_macro_fails(c: ContractV, m: MacroDefinitionV, i: int, name: Seq<char>)
    requires
        0 <= i < m.ir.len(),
        m.ir[i] == IRByteV::Statement(StatementV::MacroInvocation(name)),
        find_macro(c.macros, name) is None,
    ensures
        expand_macro(c, m) is Err,
{
    let active = Set::<Seq<char>>::empty().insert(m.name);
    assert(expand_item(c, m.ir[i], active) is Err);
    lemma_failing_item_fails_sequence(c, m.ir, active, i);
}

/// ... and where the items before the invocation all expand, the error is
/// exactly `MissingMacroDefinition`.
pub proof fn lemma_missing_macro_reported(
    c: ContractV,
    m: MacroDefinitionV,
    i: int,
    name: Seq<char>,
)
    requires
        0 <= i < m.ir.len(),
        m.ir[i] == IRByteV::Statement(StatementV::MacroInvocation(name)),
        find_macro(c.macros, name) is None,
        forall|j: int|
            0 <= j < i ==> expand_item(
                c,
                #[trigger] m.ir[j],
                Set::<Seq<char>>::empty().insert(m.name),
            ) is Ok,
    ensures
        expand_macro(c, m) == Err::<Seq<Seq<char>>, CodegenErrorKind>(
            CodegenErrorKind::MissingMacroDefinition,
        ),
{
    lemma_first_failure_reported(
        c,
        m.ir,
        Set::<Seq<char>>::empty().insert(m.name),
        i,
        CodegenErrorKind::MissingMacroDefinition,
    );
}

/// A missing constant cannot expand: a body one of whose items references a
/// name that no constant definition carries fails.
pub proof fn lemma_missing_constant_fails(
    c: ContractV,
    m: MacroDefinitionV,
    i: int,
    name: Seq<char>,
)
    requires
        0 <= i < m.ir.len(),
        m.ir[i] == IRByteV::Constant(name),
        find_constant(c.constants, name) is None,
    ensures
        expand_macro(c, m) is Err,
{
    let active = Set::<Seq<char>>::empty().insert(m.name);
    assert(expand_item(c, m.ir[i], active) is Err);
    lemma_failing_item_fails_sequence(c, m.ir, active, i);
}

/// ... and where the items before the reference all expand, the error is
/// exactly `MissingConstantDefinition`.
pub proof fn lemma_missing_constant_reported(
    c: ContractV,
    m: MacroDefinitionV,
    i: int,
    name: Seq<char>,
)
    requires
        0 <= i < m.ir.len(),
        m.ir[i] == IRByteV::Constant(name),
        find_constant(c.constants, name) is None,
        forall|j: int|
            0 <= j < i ==> expand_item(
                c,
                #[trigger] m.ir[j],
                Set::<Seq<char>>::empty().insert(m.name),
            ) is Ok,
    ensures
        expand_macro(c, m) == Err::<Seq<Seq<char>>, CodegenErrorKind>(
            CodegenErrorKind::MissingConstantDefinition,
        ),
{
    lemma_first_failure_reported(
        c,
        m.ir,
        Set::<Seq<char>>::empty().insert(m.name),
        i,
        CodegenErrorKind::MissingConstantDefinition,
    );
}

} // verus!
