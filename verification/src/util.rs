//! Small helpers shared across the library: ASCII string building and a
//! hexadecimal rendering of byte vectors.

use vstd::prelude::*;

verus! {

/// The characters that a sequence of ASCII bytes stands for, one
/// character per byte.
pub open spec fn ascii_seq(s: Seq<u8>) -> Seq<char> {
    s.map_values(|b: u8| b as char)
}

/// Relies on `String::from_utf8`: bytes below 0x80 are ASCII, always
/// valid UTF-8, and decode one-to-one to the characters with the same
/// code points.
#[verifier::external_body]
pub(crate) fn ascii_to_string(bytes: &Vec<u8>) -> (r: String)
    requires
        forall|i: int| 0 <= i < bytes@.len() ==> bytes@[i] < 0x80,
    ensures
        r@ == ascii_seq(bytes@),
{
    String::from_utf8(bytes.clone()).unwrap()
}

/// The ASCII code of the hexadecimal digit for `n` (`n` taken modulo 16).
pub open spec fn hex_digit(n: u8) -> u8 {
    if n % 16 < 10 {
        (0x30 + n % 16) as u8
    } else {
        (0x61 + (n % 16 - 10)) as u8
    }
}

/// The two hexadecimal digits of one byte, high nibble first.
pub open spec fn hex_pair(b: u8) -> Seq<u8> {
    seq![hex_digit(b / 16), hex_digit(b % 16)]
}

/// The hexadecimal rendering of a byte sequence: two digits per byte,
/// bytes separated by single spaces.
pub open spec fn hex_bytes(s: Seq<u8>) -> Seq<u8>
    decreases s.len(),
{
    if s.len() == 0 {
        Seq::empty()
    } else if s.len() == 1 {
        hex_pair(s[0])
    } else {
        hex_pair(s[0]) + seq![0x20u8] + hex_bytes(s.drop_first())
    }
}

proof fn lemma_hex_bytes_push(s: Seq<u8>, b: u8)
    ensures
        hex_bytes(s.push(b)) == if s.len() == 0 {
            hex_pair(b)
        } else {
            hex_bytes(s) + seq![0x20u8] + hex_pair(b)
        },
    decreases s.len(),
{
    if s.len() == 0 {
        assert(s.push(b) =~= seq![b]);
        assert(hex_bytes(seq![b]) == hex_pair(b));
    } else {
        assert(s.push(b).drop_first() =~= s.drop_first().push(b));
        lemma_hex_bytes_push(s.drop_first(), b);
        if s.len() == 1 {
            assert(s.drop_first().len() == 0);
            assert(hex_bytes(s) =~= hex_pair(s[0]));
            assert(hex_bytes(s.push(b)) =~= hex_pair(s[0]) + seq![0x20u8] + hex_pair(b));
        } else {
            assert(hex_bytes(s.push(b)) =~= hex_pair(s[0]) + seq![0x20u8] + hex_bytes(
                s.drop_first().push(b),
            ));
            assert(hex_bytes(s.push(b)) =~= hex_bytes(s) + seq![0x20u8] + hex_pair(b));
        }
    }
}

/// Every byte of the hexadecimal rendering is ASCII.
proof fn lemma_hex_bytes_ascii(s: Seq<u8>)
    ensures
        forall|i: int| 0 <= i < hex_bytes(s).len() ==> hex_bytes(s)[i] < 0x80,
    decreases s.len(),
{
    if s.len() == 0 {
    } else if s.len() == 1 {
        assert(hex_bytes(s) == hex_pair(s[0]));
    } else {
        lemma_hex_bytes_ascii(s.drop_first());
        let head = hex_pair(s[0]) + seq![0x20u8];
        assert forall|i: int| 0 <= i < hex_bytes(s).len() implies hex_bytes(s)[i] < 0x80 by {
            assert(hex_bytes(s) == head + hex_bytes(s.drop_first()));
            if i < head.len() {
                assert(hex_bytes(s)[i] == head[i]);
            } else {
                assert(hex_bytes(s)[i] == hex_bytes(s.drop_first())[i - head.len()]);
            }
        }
    }
}

/// Renders a vector of bytes as a string in hexadecimal notation, two
/// digits per byte and a space between bytes.
pub fn to_hex_string(bytes: Vec<u8>) -> (r: String)
    ensures
        r@ == ascii_seq(hex_bytes(bytes@)),
{
    let mut out: Vec<u8> = Vec::new();
    let mut i: usize = 0;
    while i < bytes.len()
        invariant
            i <= bytes@.len(),
            out@ == hex_bytes(bytes@.take(i as int)),
        decreases bytes@.len() - i,
    {
        let b = bytes[i];
        proof {
            lemma_hex_bytes_push(bytes@.take(i as int), b);
            assert(bytes@.take(i as int).push(b) =~= bytes@.take(i as int + 1));
        }
        if i > 0 {
            out.push(0x20);
        }
        out.push(hex_digit_exec(b / 16));
        out.push(hex_digit_exec(b % 16));
        proof {
            assert(out@ =~= hex_bytes(bytes@.take(i as int + 1)));
        }
        i = i + 1;
    }
    proof {
        assert(bytes@.take(bytes@.len() as int) =~= bytes@);
        lemma_hex_bytes_ascii(bytes@);
    }
    ascii_to_string(&out)
}

fn hex_digit_exec(n: u8) -> (r: u8)
    ensures
        r == hex_digit(n),
{
    if n % 16 < 10 {
        0x30 + n % 16
    } else {
        0x61 + (n % 16 - 10)
    }
}

} // verus!
