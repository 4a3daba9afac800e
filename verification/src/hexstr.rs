use vstd::prelude::*;

verus! {

// ---------------------------------------------------------------------------
// Hex encoding
//
// All bytecode in this crate is carried as hex strings: two lowercase digits
// for each concrete byte.  Lengths and offsets of the deployment bootstrap
// are emitted as exactly four big-endian hex digits.
// ---------------------------------------------------------------------------

/// The lowercase hex digit of a value below sixteen.
pub open spec fn hex_digit(n: nat) -> char {
    if n == 0 {
        '0'
    } else if n == 1 {
        '1'
    } else if n == 2 {
        '2'
    } else if n == 3 {
        '3'
    } else if n == 4 {
        '4'
    } else if n == 5 {
        '5'
    } else if n == 6 {
        '6'
    } else if n == 7 {
        '7'
    } else if n == 8 {
        '8'
    } else if n == 9 {
        '9'
    } else if n == 10 {
        'a'
    } else if n == 11 {
        'b'
    } else if n == 12 {
        'c'
    } else if n == 13 {
        'd'
    } else if n == 14 {
        'e'
    } else {
        'f'
    }
}

/// The two lowercase hex digits of one byte.
pub open spec fn byte_hex(b: u8) -> Seq<char> {
    seq![hex_digit((b / 16) as nat), hex_digit((b % 16) as nat)]
}

/// The lowercase hex encoding of a byte sequence, two digits per byte,
/// in order.
pub open spec fn hex_of(bytes: Seq<u8>) -> Seq<char>
    decreases bytes.len(),
{
    if bytes.len() == 0 {
        Seq::<char>::empty()
    } else {
        byte_hex(bytes[0]) + hex_of(bytes.drop_first())
    }
}

/// A value below 65536 as exactly four big-endian hex digits, zero-padded.
pub open spec fn u16_hex(n: nat) -> Seq<char> {
    seq![
        hex_digit(n / 4096 % 16),
        hex_digit(n / 256 % 16),
        hex_digit(n / 16 % 16),
        hex_digit(n % 16),
    ]
}

/// Whether `c` is a hex digit, of either case.
pub open spec fn is_hex_char(c: char) -> bool {
    (('0' as int) <= (c as int) <= ('9' as int)) || (('a' as int) <= (c as int) <= ('f' as int))
        || (('A' as int) <= (c as int) <= ('F' as int))
}

/// Whether `s` is a well-formed hex bytecode string: an even number of hex
/// digits, so that each pair stands for one byte.
pub open spec fn is_hex_string(s: Seq<char>) -> bool {
    s.len() % 2 == 0 && (forall|i: int| 0 <= i < s.len() ==> is_hex_char(s[i]))
}

/// One lowercase hex digit as a string slice.
fn hex_digit_str(n: u8) -> (r: &'static str)
    requires
        n < 16,
    ensures
        r@ == seq![hex_digit(n as nat)],
{
    let r: &'static str = if n == 0 {
        "0"
    } else if n == 1 {
        "1"
    } else if n == 2 {
        "2"
    } else if n == 3 {
        "3"
    } else if n == 4 {
        "4"
    } else if n == 5 {
        "5"
    } else if n == 6 {
        "6"
    } else if n == 7 {
        "7"
    } else if n == 8 {
        "8"
    } else if n == 9 {
        "9"
    } else if n == 10 {
        "a"
    } else if n == 11 {
        "b"
    } else if n == 12 {
        "c"
    } else if n == 13 {
        "d"
    } else if n == 14 {
        "e"
    } else {
        "f"
    };
    proof {
        reveal_strlit("0");
        reveal_strlit("1");
        reveal_strlit("2");
        reveal_strlit("3");
        reveal_strlit("4");
        reveal_strlit("5");
        reveal_strlit("6");
        reveal_strlit("7");
        reveal_strlit("8");
        reveal_strlit("9");
        reveal_strlit("a");
        reveal_strlit("b");
        reveal_strlit("c");
        reveal_strlit("d");
        reveal_strlit("e");
        reveal_strlit("f");
        assert(r@ =~= seq![hex_digit(n as nat)]);
    }
    r
}

/// One byte as two lowercase hex digits.
pub fn byte_to_hex(b: u8) -> (r: String)
    ensures
        r@ == byte_hex(b),
{
    let mut s = String::new();
    s.append(hex_digit_str(b / 16));
    s.append(hex_digit_str(b % 16));
    proof {
        assert(s@ =~= byte_hex(b));
    }
    s
}

/// A length or offset as exactly four big-endian, zero-padded hex digits.
pub fn word_to_hex4(n: u16) -> (r: String)
    ensures
        r@ == u16_hex(n as nat),
{
    let mut s = String::new();
    s.append(hex_digit_str(((n / 4096) % 16) as u8));
    s.append(hex_digit_str(((n / 256) % 16) as u8));
    s.append(hex_digit_str(((n / 16) % 16) as u8));
    s.append(hex_digit_str((n % 16) as u8));
    proof {
        assert(s@ =~= u16_hex(n as nat));
    }
    s
}

/// Hex encoding distributes over appending one byte at the end.
pub proof fn lemma_hex_of_push(bytes: Seq<u8>, b: u8)
    ensures
        hex_of(bytes.push(b)) == hex_of(bytes) + byte_hex(b),
    decreases bytes.len(),
{
    if bytes.len() == 0 {
        reveal_with_fuel(hex_of, 2);
        assert(bytes.push(b).drop_first() =~= Seq::<u8>::empty());
        assert(hex_of(bytes.push(b)) =~= hex_of(bytes) + byte_hex(b));
    } else {
        assert(bytes.push(b).drop_first() =~= bytes.drop_first().push(b));
        lemma_hex_of_push(bytes.drop_first(), b);
        assert(byte_hex(bytes[0]) + (hex_of(bytes.drop_first()) + byte_hex(b)) =~= (byte_hex(
            bytes[0],
        ) + hex_of(bytes.drop_first())) + byte_hex(b));
    }
}

/// A byte sequence as lowercase hex, two digits per byte, in order.
pub fn bytes_to_hex(bytes: &Vec<u8>) -> (r: String)
    ensures
        r@ == hex_of(bytes@),
{
    let mut out = String::new();
    let mut i: usize = 0;
    while i < bytes.len()
        invariant
            i <= bytes@.len(),
            out@ == hex_of(bytes@.take(i as int)),
        decreases bytes@.len() - i,
    {
        let pair = byte_to_hex(bytes[i]);
        out.append(pair.as_str());
        proof {
            assert(bytes@.take((i + 1) as int) =~= bytes@.take(i as int).push(bytes@[i as int]));
            lemma_hex_of_push(bytes@.take(i as int), bytes@[i as int]);
        }
        i += 1;
    }
    proof {
        assert(bytes@.take(bytes@.len() as int) =~= bytes@);
    }
    out
}

/// Whether a string is a well-formed hex bytecode string, so that callers can
/// reject odd-length or non-hex input before assembling deployment code.
pub fn check_hex_string(s: &str) -> (b: bool)
    ensures
        b == is_hex_string(s@),
{
    let n = s.unicode_len();
    if n % 2 != 0 {
        return false;
    }
    let mut i: usize = 0;
    while i < n
        invariant
            i <= n,
            n == s@.len(),
            s@.len() % 2 == 0,
            forall|j: int| 0 <= j < i ==> is_hex_char(s@[j]),
        decreases n - i,
    {
        let c = s.get_char(i);
        let u = c as u32;
        if !((48 <= u && u <= 57) || (97 <= u && u <= 102) || (65 <= u && u <= 70)) {
            return false;
        }
        i += 1;
    }
    true
}

} // verus!
