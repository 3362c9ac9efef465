//! Verified rendering of integers and bytes as text: decimal timestamps and
//! hexadecimal identity prefixes, used for display strings and for
//! deterministic verification identifiers.

use vstd::prelude::*;

use crate::identity::IdentityKey;

verus! {

/// The character for the decimal digit `d`.
pub open spec fn decimal_digit_char(d: int) -> char {
    if d == 0 {
        '0'
    } else if d == 1 {
        '1'
    } else if d == 2 {
        '2'
    } else if d == 3 {
        '3'
    } else if d == 4 {
        '4'
    } else if d == 5 {
        '5'
    } else if d == 6 {
        '6'
    } else if d == 7 {
        '7'
    } else if d == 8 {
        '8'
    } else {
        '9'
    }
}

/// The decimal digits of `n`, most significant first, without leading zeros
/// (zero itself renders as the single digit `0`).
pub open spec fn spec_decimal_nat(n: nat) -> Seq<char>
    decreases n,
{
    if n < 10 {
        seq![decimal_digit_char(n as int)]
    } else {
        spec_decimal_nat(n / 10) + seq![decimal_digit_char((n % 10) as int)]
    }
}

/// The decimal rendering of a signed value: a minus sign before the digits of
/// its magnitude.
pub open spec fn spec_decimal_int(t: int) -> Seq<char> {
    if t < 0 {
        seq!['-'] + spec_decimal_nat((-t) as nat)
    } else {
        spec_decimal_nat(t as nat)
    }
}

fn decimal_digit_str(d: u64) -> (s: &'static str)
    requires
        d < 10,
    ensures
        s@ == seq![decimal_digit_char(d as int)],
{
    let s: &'static str = match d {
        0 => "0",
        1 => "1",
        2 => "2",
        3 => "3",
        4 => "4",
        5 => "5",
        6 => "6",
        7 => "7",
        8 => "8",
        _ => "9",
    };
    proof {
        reveal_strlit("0");
        reveal_strlit("1");
        reveal_strlit("2");
        reveal_strlit("3");
        reveal_strlit("4");
        reveal_strlit("5");
        reveal_strlit("6");
        reveal_strlit("7");
        reveal_strlit("8");
        reveal_strlit("9");
        assert(s@ =~= seq![decimal_digit_char(d as int)]);
    }
    s
}

/// The decimal digits of `n` as a string.
pub fn u64_to_decimal(n: u64) -> (s: String)
    ensures
        s@ == spec_decimal_nat(n as nat),
    decreases n,
{
    if n < 10 {
        String::from_str(decimal_digit_str(n))
    } else {
        let mut s = u64_to_decimal(n / 10);
        s.append(decimal_digit_str(n % 10));
        s
    }
}

/// Renders a timestamp (or any signed 64-bit value) in decimal, with a
/// leading minus sign when negative.
pub fn format_timestamp(timestamp: i64) -> (s: String)
    ensures
        s@ == spec_decimal_int(timestamp as int),
{
    if timestamp >= 0 {
        u64_to_decimal(timestamp as u64)
    } else {
        let magnitude: u64 = ((-(timestamp + 1)) as u64) + 1;
        let mut s = String::from_str("-");
        let digits = u64_to_decimal(magnitude);
        s.append(digits.as_str());
        proof {
            reveal_strlit("-");
            assert(s@ =~= spec_decimal_int(timestamp as int));
        }
        s
    }
}

/// The character for the hexadecimal digit `d`, lower case.
pub open spec fn hex_digit_char(d: int) -> char {
    if d < 10 {
        decimal_digit_char(d)
    } else if d == 10 {
        'a'
    } else if d == 11 {
        'b'
    } else if d == 12 {
        'c'
    } else if d == 13 {
        'd'
    } else if d == 14 {
        'e'
    } else {
        'f'
    }
}

/// The two hexadecimal digits of one byte, high digit first.
pub open spec fn spec_hex_byte(b: u8) -> Seq<char> {
    seq![hex_digit_char(b as int / 16), hex_digit_char(b as int % 16)]
}

/// The hexadecimal digits of a byte sequence, two characters per byte.
pub open spec fn spec_hex_bytes(s: Seq<u8>) -> Seq<char>
    decreases s.len(),
{
    if s.len() == 0 {
        Seq::empty()
    } else {
        spec_hex_byte(s[0]) + spec_hex_bytes(s.drop_first())
    }
}

fn hex_digit_str(d: u64) -> (s: &'static str)
    requires
        d < 16,
    ensures
        s@ == seq![hex_digit_char(d as int)],
{
    if d < 10 {
        decimal_digit_str(d)
    } else {
        let s: &'static str = match d {
            10 => "a",
            11 => "b",
            12 => "c",
            13 => "d",
            14 => "e",
            _ => "f",
        };
        proof {
            reveal_strlit("a");
            reveal_strlit("b");
            reveal_strlit("c");
            reveal_strlit("d");
            reveal_strlit("e");
            reveal_strlit("f");
            assert(s@ =~= seq![hex_digit_char(d as int)]);
        }
        s
    }
}

proof fn lemma_hex_bytes_push(s: Seq<u8>, b: u8)
    ensures
        spec_hex_bytes(s.push(b)) == spec_hex_bytes(s) + spec_hex_byte(b),
    decreases s.len(),
{
    if s.len() == 0 {
        assert(s.push(b)[0] == b);
        assert(s.push(b).drop_first() =~= Seq::<u8>::empty());
        assert(spec_hex_bytes(Seq::<u8>::empty()) == Seq::<char>::empty());
        assert(spec_hex_bytes(s.push(b)) == spec_hex_byte(b) + Seq::<char>::empty());
        assert(spec_hex_bytes(s) == Seq::<char>::empty());
        assert(spec_hex_bytes(s.push(b)) =~= spec_hex_bytes(s) + spec_hex_byte(b));
    } else {
        assert(s.push(b)[0] == s[0]);
        assert(s.push(b).drop_first() =~= s.drop_first().push(b));
        lemma_hex_bytes_push(s.drop_first(), b);
        assert(spec_hex_bytes(s.push(b)) == spec_hex_byte(s[0]) + spec_hex_bytes(
            s.drop_first().push(b),
        ));
        assert(spec_hex_bytes(s.push(b)) =~= spec_hex_bytes(s) + spec_hex_byte(b));
    }
}

/// The lower-case hexadecimal rendering of the first `count` bytes of an
/// identity key, used as the deterministic short form of an identity.
pub fn identity_hex_prefix(key: &IdentityKey, count: usize) -> (s: String)
    requires
        count <= 32,
    ensures
        s@ == spec_hex_bytes(key@.take(count as int)),
{
    let mut s = String::new();
    let mut i: usize = 0;
    while i < count
        invariant
            i <= count <= 32,
            s@ == spec_hex_bytes(key@.take(i as int)),
        decreases count - i,
    {
        let b = key.bytes[i];
        s.append(hex_digit_str((b / 16) as u64));
        s.append(hex_digit_str((b % 16) as u64));
        proof {
            assert(key@.take(i + 1 as int) =~= key@.take(i as int).push(key@[i as int]));
            lemma_hex_bytes_push(key@.take(i as int), key@[i as int]);
            assert(s@ =~= spec_hex_bytes(key@.take(i + 1)));
        }
        i += 1;
    }
    s
}

} // verus!
