use crate::hexstr::{is_hex_string, u16_hex, word_to_hex4};
use vstd::prelude::*;

verus! {

// ---------------------------------------------------------------------------
// Deployment assembly
//
// Deployable bytecode is the constructor code, a fixed bootstrap sequence
// that carves the runtime code out of the deployment payload at deploy time,
// the runtime code itself, and the ABI-encoded constructor arguments, in
// that order.  Everything here is measured in bytes: two hex digits each.
// ---------------------------------------------------------------------------

/// The byte length of the bootstrap sequence itself: the runtime code starts
/// this many bytes after the constructor code ends.
pub const BOOTSTRAP_LENGTH: usize = 13;

/// The bootstrap sequence for a runtime code of `size` bytes standing at
/// byte offset `offset` of the deployment payload: push the size, duplicate
/// it, push the offset, copy that stretch of code to memory at zero, and
/// return it.
pub open spec fn bootstrap_code(size: nat, offset: nat) -> Seq<char> {
    seq!['6', '1'] + u16_hex(size) + seq!['8', '0', '6', '1'] + u16_hex(offset) + seq![
        '6',
        '0',
        '0',
        '0',
        '3',
        '9',
        '6',
        '0',
        '0',
        '0',
        'f',
        '3',
    ]
}

/// The full deployment payload for the given runtime code, constructor code
/// and already-encoded constructor arguments.
pub open spec fn deploy_bytecode(main: Seq<char>, ctor: Seq<char>, args_hex: Seq<char>) -> Seq<
    char,
> {
    ctor + bootstrap_code(main.len() / 2, 13 + ctor.len() / 2) + main + args_hex
}

/// Assembles the deployment payload: constructor code, bootstrap, runtime
/// code, then the encoded constructor arguments.  Sizes are emitted as four
/// zero-padded hex digits, so both byte counts must stay below 65536.
pub fn assemble_deployment(main_bytecode: &str, constructor_bytecode: &str, args_hex: &str) -> (r:
    String)
    requires
        is_hex_string(main_bytecode@),
        is_hex_string(constructor_bytecode@),
        main_bytecode@.len() / 2 <= 0xffff,
        13 + constructor_bytecode@.len() / 2 <= 0xffff,
    ensures
        r@ == deploy_bytecode(main_bytecode@, constructor_bytecode@, args_hex@),
{
    let contract_length: usize = main_bytecode.unicode_len() / 2;
    let constructor_length: usize = constructor_bytecode.unicode_len() / 2;

    let contract_size = word_to_hex4(contract_length as u16);
    let contract_code_offset = word_to_hex4((BOOTSTRAP_LENGTH + constructor_length) as u16);

    let mut out = String::new();
    out.append(constructor_bytecode);
    out.append("61");
    out.append(contract_size.as_str());
    out.append("8061");
    out.append(contract_code_offset.as_str());
    out.append("6000396000f3");
    out.append(main_bytecode);
    out.append(args_hex);
    proof {
        reveal_strlit("61");
        reveal_strlit("8061");
        reveal_strlit("6000396000f3");
        assert(out@ =~= deploy_bytecode(main_bytecode@, constructor_bytecode@, args_hex@));
    }
    out
}

// ---------------------------------------------------------------------------
// Constructor-argument encoding, through the external ABI encoder.
// ---------------------------------------------------------------------------

#[verifier::external_type_specification]
#[verifier::external_body]
/// An already-typed ABI argument value of the external encoder.
pub struct ExToken(ethers::abi::Token);

/// The hex ABI encoding of one argument value: what the external encoder
/// returns for the token, a function of the token alone.
pub uninterp spec fn abi_token_hex(t: ethers::abi::Token) -> Seq<char>;

/// The encoded constructor-argument suffix: each argument's hex ABI
/// encoding, concatenated in argument order.
pub open spec fn args_hex_of(args: Seq<ethers::abi::Token>) -> Seq<char>
    decreases args.len(),
{
    if args.len() == 0 {
        Seq::<char>::empty()
    } else {
        abi_token_hex(args[0]) + args_hex_of(args.drop_first())
    }
}

/// The argument suffix distributes over appending one argument at the end.
pub proof fn lemma_args_hex_push(args: Seq<ethers::abi::Token>, t: ethers::abi::Token)
    ensures
        args_hex_of(args.push(t)) == args_hex_of(args) + abi_token_hex(t),
    decreases args.len(),
{
    if args.len() == 0 {
        reveal_with_fuel(args_hex_of, 2);
        assert(args.push(t).drop_first() =~= Seq::<ethers::abi::Token>::empty());
        assert(args_hex_of(args.push(t)) =~= args_hex_of(args) + abi_token_hex(t));
    } else {
        assert(args.push(t).drop_first() =~= args.drop_first().push(t));
        lemma_args_hex_push(args.drop_first(), t);
        assert(abi_token_hex(args[0]) + (args_hex_of(args.drop_first()) + abi_token_hex(t))
            =~= (abi_token_hex(args[0]) + args_hex_of(args.drop_first())) + abi_token_hex(t));
    }
}

/// Relies on `ethers::abi::encode` and `hex::encode`: one argument value,
/// ABI-encoded on its own, then hex-encoded as two lowercase digits per
/// byte — a well-formed hex string that depends on the token alone.
#[verifier::external_body]
fn abi_encode_token(token: &ethers::abi::Token) -> (r: String)
    ensures
        r@ == abi_token_hex(*token),
        is_hex_string(r@),
{
    hex::encode(ethers::abi::encode(std::slice::from_ref(token)))
}

/// Two well-formed hex strings concatenate to a well-formed hex string.
proof fn lemma_hex_string_concat(a: Seq<char>, b: Seq<char>)
    requires
        is_hex_string(a),
        is_hex_string(b),
    ensures
        is_hex_string(a + b),
{
    assert((a + b).len() % 2 == 0);
    assert forall|i: int| 0 <= i < (a + b).len() implies crate::hexstr::is_hex_char(
        #[trigger] (a + b)[i],
    ) by {
        if i < a.len() {
            assert((a + b)[i] == a[i]);
        } else {
            assert((a + b)[i] == b[i - a.len()]);
        }
    }
}

/// Encodes each constructor argument independently through the external ABI
/// encoder and concatenates the results in argument order.  No arguments
/// encode to the empty string.
pub fn encode_constructor_args(args: &Vec<ethers::abi::Token>) -> (r: String)
    ensures
        r@ == args_hex_of(args@),
        is_hex_string(r@),
{
    let mut out = String::new();
    let mut i: usize = 0;
    while i < args.len()
        invariant
            i <= args@.len(),
            out@ == args_hex_of(args@.take(i as int)),
            is_hex_string(out@),
        decreases args@.len() - i,
    {
        let encoded = abi_encode_token(&args[i]);
        proof {
            lemma_hex_string_concat(out@, encoded@);
            assert(args@.take((i + 1) as int) =~= args@.take(i as int).push(args@[i as int]));
            lemma_args_hex_push(args@.take(i as int), args@[i as int]);
        }
        out.append(encoded.as_str());
        i += 1;
    }
    proof {
        assert(args@.take(args@.len() as int) =~= args@);
    }
    out
}

} // verus!
