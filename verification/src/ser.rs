//! Byte-level building blocks for the outbound request bodies: byte-slice
//! comparison, JSON string escaping, and decimal rendering of integers.

use vstd::prelude::*;

verus! {

use vstd::string::StringSliceAdditionalSpecFns;

/// True exactly when the two byte slices hold the same bytes.
pub fn bytes_eq(a: &[u8], b: &[u8]) -> (r: bool)
    ensures
        r <==> a@ == b@,
{
    if a.len() != b.len() {
        return false;
    }
    let mut i: usize = 0;
    while i < a.len()
        invariant
            i <= a@.len(),
            a@.len() == b@.len(),
            forall|j: int| 0 <= j < i ==> a@[j] == b@[j],
        decreases a@.len() - i,
    {
        if a[i] != b[i] {
            return false;
        }
        i = i + 1;
    }
    proof {
        assert(a@ =~= b@);
    }
    true
}

/// The lower-case hex digit for a value below 16.
pub open spec fn spec_hex_digit(n: int) -> u8 {
    if n < 10 {
        (0x30 + n) as u8
    } else {
        (0x57 + n) as u8
    }
}

/// How one byte of a string appears inside a JSON string literal: quote,
/// backslash and control bytes are escaped, every other byte stands as is.
pub open spec fn spec_escape_byte(b: u8) -> Seq<u8> {
    if b == 0x22 {
        seq![0x5cu8, 0x22u8]
    } else if b == 0x5c {
        seq![0x5cu8, 0x5cu8]
    } else if b == 0x08 {
        seq![0x5cu8, 0x62u8]
    } else if b == 0x09 {
        seq![0x5cu8, 0x74u8]
    } else if b == 0x0a {
        seq![0x5cu8, 0x6eu8]
    } else if b == 0x0c {
        seq![0x5cu8, 0x66u8]
    } else if b == 0x0d {
        seq![0x5cu8, 0x72u8]
    } else if b < 0x20 {
        seq![0x5cu8, 0x75u8, 0x30u8, 0x30u8, spec_hex_digit(b as int / 16), spec_hex_digit(b as int % 16)]
    } else {
        seq![b]
    }
}

/// A whole byte string escaped for use inside a JSON string literal.
pub open spec fn spec_escape(s: Seq<u8>) -> Seq<u8>
    decreases s.len(),
{
    if s.len() == 0 {
        Seq::empty()
    } else {
        spec_escape_byte(s[0]) + spec_escape(s.drop_first())
    }
}

pub proof fn lemma_escape_snoc(s: Seq<u8>, b: u8)
    ensures
        spec_escape(s.push(b)) == spec_escape(s) + spec_escape_byte(b),
    decreases s.len(),
{
    if s.len() == 0 {
        assert(s.push(b)[0] == b);
        assert(s.push(b).drop_first() =~= Seq::<u8>::empty());
        assert(spec_escape(Seq::<u8>::empty()) =~= Seq::<u8>::empty());
        assert(spec_escape_byte(b) + Seq::<u8>::empty() =~= spec_escape_byte(b));
        assert(spec_escape(s) + spec_escape_byte(b) =~= spec_escape_byte(b));
        assert(spec_escape(s.push(b)) =~= spec_escape(s) + spec_escape_byte(b));
    } else {
        assert(s.push(b)[0] == s[0]);
        assert(s.push(b).drop_first() =~= s.drop_first().push(b));
        lemma_escape_snoc(s.drop_first(), b);
        assert(spec_escape(s.push(b)) =~= spec_escape(s) + spec_escape_byte(b));
    }
}

fn hex_digit(n: u8) -> (r: u8)
    requires
        n < 16,
    ensures
        r == spec_hex_digit(n as int),
{
    if n < 10 {
        0x30 + n
    } else {
        0x57 + n
    }
}

/// Appends `s`, escaped as a JSON string literal's contents, to `buf`.
pub fn append_escaped(buf: &mut Vec<u8>, s: &[u8])
    ensures
        final(buf)@ == old(buf)@ + spec_escape(s@),
{
    let mut i: usize = 0;
    while i < s.len()
        invariant
            i <= s@.len(),
            buf@ == old(buf)@ + spec_escape(s@.take(i as int)),
        decreases s@.len() - i,
    {
        let b = s[i];
        if b == 0x22 {
            buf.push(0x5c);
            buf.push(0x22);
        } else if b == 0x5c {
            buf.push(0x5c);
            buf.push(0x5c);
        } else if b == 0x08 {
            buf.push(0x5c);
            buf.push(0x62);
        } else if b == 0x09 {
            buf.push(0x5c);
            buf.push(0x74);
        } else if b == 0x0a {
            buf.push(0x5c);
            buf.push(0x6e);
        } else if b == 0x0c {
            buf.push(0x5c);
            buf.push(0x66);
        } else if b == 0x0d {
            buf.push(0x5c);
            buf.push(0x72);
        } else if b < 0x20 {
            buf.push(0x5c);
            buf.push(0x75);
            buf.push(0x30);
            buf.push(0x30);
            buf.push(hex_digit(b / 16));
            buf.push(hex_digit(b % 16));
        } else {
            buf.push(b);
        }
        proof {
            lemma_escape_snoc(s@.take(i as int), s@[i as int]);
            assert(s@.take(i as int).push(s@[i as int]) =~= s@.take(i as int + 1));
        }
        i = i + 1;
    }
    proof {
        assert(s@.take(s@.len() as int) =~= s@);
    }
}

/// The decimal digits of a non-negative integer, most significant first.
pub open spec fn spec_dec(n: int) -> Seq<u8>
    decreases n,
{
    if n < 0 {
        Seq::empty()
    } else if n < 10 {
        seq![(0x30 + n) as u8]
    } else {
        spec_dec(n / 10) + seq![(0x30 + n % 10) as u8]
    }
}

/// Appends the decimal rendering of `n` to `buf`.
pub fn append_dec(buf: &mut Vec<u8>, n: u32)
    ensures
        final(buf)@ == old(buf)@ + spec_dec(n as int),
    decreases n,
{
    if n < 10 {
        buf.push(0x30 + (n as u8));
    } else {
        append_dec(buf, n / 10);
        buf.push(0x30 + ((n % 10) as u8));
        proof {
            assert(buf@ =~= old(buf)@ + spec_dec(n as int));
        }
    }
}

/// Appends the bytes of a string slice to `buf`.
pub fn append_str(buf: &mut Vec<u8>, s: &str)
    ensures
        final(buf)@ == old(buf)@ + s.spec_bytes(),
{
    buf.extend_from_slice(s.as_bytes());
}

} // verus!
