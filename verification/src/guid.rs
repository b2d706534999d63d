//! Formatting of sixteen entropy bytes as a GUID-style identifier, used to
//! name a generated execution context. The caller supplies the bytes; only
//! uniqueness, not unpredictability, is asked of them.

use vstd::prelude::*;
use vstd::string::StringExecFns;
use vstd::string::StrSliceExecFns;

verus! {

/// The character for one hexadecimal digit value.
pub open spec fn hex_char(d: int) -> char {
    if d == 0 {
        '0'
    } else if d == 1 {
        '1'
    } else if d == 2 {
        '2'
    } else if d == 3 {
        '3'
    } else if d == 4 {
        '4'
    } else if d == 5 {
        '5'
    } else if d == 6 {
        '6'
    } else if d == 7 {
        '7'
    } else if d == 8 {
        '8'
    } else if d == 9 {
        '9'
    } else if d == 10 {
        'a'
    } else if d == 11 {
        'b'
    } else if d == 12 {
        'c'
    } else if d == 13 {
        'd'
    } else if d == 14 {
        'e'
    } else {
        'f'
    }
}

/// The two hexadecimal characters of one byte, high digit first.
pub open spec fn byte_hex(b: u8) -> Seq<char> {
    seq![hex_char(b as int / 16), hex_char(b as int % 16)]
}

/// The hexadecimal rendering of a byte sequence.
pub open spec fn bytes_hex(s: Seq<u8>) -> Seq<char>
    decreases s.len(),
{
    if s.len() == 0 {
        Seq::empty()
    } else {
        byte_hex(s[0]) + bytes_hex(s.skip(1))
    }
}

/// The GUID-style rendering of sixteen bytes: five hexadecimal groups of
/// four, two, two, two and six bytes, separated by hyphens.
pub open spec fn guid_chars(b: Seq<u8>) -> Seq<char> {
    bytes_hex(b.subrange(0, 4)) + seq!['-'] + bytes_hex(b.subrange(4, 6)) + seq!['-'] + bytes_hex(
        b.subrange(6, 8),
    ) + seq!['-'] + bytes_hex(b.subrange(8, 10)) + seq!['-'] + bytes_hex(b.subrange(10, 16))
}

/// Rendering one byte more extends the rendering by that byte's digits.
proof fn lemma_bytes_hex_snoc(s: Seq<u8>, b: u8)
    ensures
        bytes_hex(s.push(b)) == bytes_hex(s) + byte_hex(b),
    decreases s.len(),
{
    if s.len() == 0 {
        assert(s.push(b).skip(1) =~= Seq::<u8>::empty());
        assert(bytes_hex(Seq::<u8>::empty()) =~= Seq::<char>::empty());
        assert(s.push(b)[0] == b);
        assert(bytes_hex(s.push(b)) =~= bytes_hex(s) + byte_hex(b));
    } else {
        assert(s.push(b).skip(1) =~= s.skip(1).push(b));
        lemma_bytes_hex_snoc(s.skip(1), b);
        assert(bytes_hex(s.push(b)) =~= bytes_hex(s) + byte_hex(b));
    }
}

/// One hexadecimal digit as a borrowed one-character string.
fn hex_str(d: u8) -> (r: &'static str)
    requires
        d < 16,
    ensures
        r@ == seq![hex_char(d as int)],
{
    let digits = "0123456789abcdef";
    proof {
        reveal_strlit("0123456789abcdef");
    }
    let r = digits.substring_ascii(d as usize, d as usize + 1);
    proof {
        assert(r@ =~= seq![hex_char(d as int)]);
    }
    r
}

/// Appends the hexadecimal rendering of `bytes[from..to]`.
fn append_hex(s: &mut String, bytes: &[u8], from: usize, to: usize)
    requires
        from <= to <= bytes@.len(),
    ensures
        final(s)@ == old(s)@ + bytes_hex(bytes@.subrange(from as int, to as int)),
{
    let mut i: usize = from;
    proof {
        assert(bytes@.subrange(from as int, from as int) =~= Seq::<u8>::empty());
        assert(s@ =~= s@ + bytes_hex(bytes@.subrange(from as int, from as int)));
    }
    while i < to
        invariant
            from <= i <= to <= bytes@.len(),
            s@ == old(s)@ + bytes_hex(bytes@.subrange(from as int, i as int)),
        decreases to - i,
    {
        let b = bytes[i];
        proof {
            assert(bytes@.subrange(from as int, i as int).push(b) =~= bytes@.subrange(
                from as int,
                i + 1 as int,
            ));
            lemma_bytes_hex_snoc(bytes@.subrange(from as int, i as int), b);
        }
        s.append(hex_str(b / 16));
        s.append(hex_str(b % 16));
        proof {
            assert(s@ =~= old(s)@ + bytes_hex(bytes@.subrange(from as int, i + 1 as int)));
        }
        i += 1;
    }
}

/// Formats sixteen entropy bytes as a GUID-style identifier.
pub fn uuid_string(bytes: &[u8]) -> (r: String)
    requires
        bytes@.len() == 16,
    ensures
        r@ == guid_chars(bytes@),
{
    let mut s = String::new();
    append_hex(&mut s, bytes, 0, 4);
    s.append("-");
    append_hex(&mut s, bytes, 4, 6);
    s.append("-");
    append_hex(&mut s, bytes, 6, 8);
    s.append("-");
    append_hex(&mut s, bytes, 8, 10);
    s.append("-");
    append_hex(&mut s, bytes, 10, 16);
    proof {
        reveal_strlit("-");
        assert(s@ =~= guid_chars(bytes@));
    }
    s
}

} // verus!
