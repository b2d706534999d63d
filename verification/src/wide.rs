//! Wide strings: UTF-16 encoding and an owned wide-string value standing in
//! for the runtime's length-prefixed string type.

use vstd::prelude::*;
use vstd::slice::slice_to_vec;
use vstd::string::StrSliceExecFns;
use vstd::utf8::{
    char_u32_cast, decode_utf8, encode_scalar, encode_utf8, encode_utf8_decode_utf8,
    encode_utf8_valid_utf8, is_scalar, valid_utf8,
};

verus! {

/// The UTF-16 code units of one character: a single unit below the
/// supplementary planes, else a surrogate pair.
pub open spec fn utf16_char(c: char) -> Seq<u16> {
    if (c as u32) < 0x10000 {
        seq![(c as u32) as u16]
    } else {
        seq![
            (0xd800 + ((c as u32) - 0x10000) / 0x400) as u16,
            (0xdc00 + ((c as u32) - 0x10000) % 0x400) as u16,
        ]
    }
}

/// The UTF-16 code units of a character sequence.
pub open spec fn utf16(s: Seq<char>) -> Seq<u16>
    decreases s.len(),
{
    if s.len() == 0 {
        Seq::empty()
    } else {
        utf16_char(s[0]) + utf16(s.skip(1))
    }
}

/// The UTF-16 code units of a character sequence, with a terminating zero
/// unit, as the runtime's discovery and domain-creation calls expect.
pub open spec fn wide_nul(s: Seq<char>) -> Seq<u16> {
    utf16(s).push(0)
}

/// Encoding one character more extends the encoding by that character's
/// units.
pub proof fn lemma_utf16_snoc(s: Seq<char>, c: char)
    ensures
        utf16(s.push(c)) == utf16(s) + utf16_char(c),
    decreases s.len(),
{
    if s.len() == 0 {
        assert(s.push(c).skip(1) =~= Seq::<char>::empty());
        assert(utf16(Seq::<char>::empty()) =~= Seq::<u16>::empty());
        assert(s.push(c)[0] == c);
        assert(utf16(s.push(c)) =~= utf16(s) + utf16_char(c));
    } else {
        assert(s.push(c).skip(1) =~= s.skip(1).push(c));
        lemma_utf16_snoc(s.skip(1), c);
        assert(utf16(s.push(c)) =~= utf16(s) + utf16_char(c));
    }
}

/// Encodes a string as UTF-16 code units.
pub fn encode_utf16(s: &str) -> (r: Vec<u16>)
    ensures
        r@ == utf16(s@),
{
    let n = s.unicode_len();
    let mut r: Vec<u16> = Vec::new();
    let mut i: usize = 0;
    while i < n
        invariant
            i <= n,
            n == s@.len(),
            r@ == utf16(s@.take(i as int)),
        decreases n - i,
    {
        let c = s.get_char(i);
        proof {
            assert(s@.take(i as int).push(c) =~= s@.take(i + 1 as int));
            lemma_utf16_snoc(s@.take(i as int), c);
        }
        let cv = c as u32;
        if cv < 0x10000 {
            r.push(cv as u16);
        } else {
            let v = cv - 0x10000;
            r.push((0xd800 + v / 0x400) as u16);
            r.push((0xdc00 + v % 0x400) as u16);
        }
        proof {
            assert(r@ =~= utf16(s@.take(i + 1 as int)));
        }
        i += 1;
    }
    proof {
        assert(s@.take(n as int) =~= s@);
    }
    r
}

/// Encodes a string as UTF-16 code units with a terminating zero unit.
pub fn encode_wide_nul(s: &str) -> (r: Vec<u16>)
    ensures
        r@ == wide_nul(s@),
{
    let mut r = encode_utf16(s);
    r.push(0);
    r
}

/// Whether `s` ends with `suffix`.
pub open spec fn ends_with(s: Seq<char>, suffix: Seq<char>) -> bool {
    &&& suffix.len() <= s.len()
    &&& s.skip(s.len() - suffix.len()) == suffix
}

/// Compares two strings character by character.
pub fn str_eq(a: &str, b: &str) -> (r: bool)
    ensures
        r == (a@ == b@),
{
    let n = a.unicode_len();
    let m = b.unicode_len();
    if n != m {
        proof {
            assert(a@ != b@);
        }
        return false;
    }
    let mut i: usize = 0;
    while i < n
        invariant
            i <= n,
            n == a@.len() == b@.len(),
            forall|k: int| 0 <= k < i ==> a@[k] == b@[k],
        decreases n - i,
    {
        if a.get_char(i) != b.get_char(i) {
            return false;
        }
        i += 1;
    }
    proof {
        assert(a@ =~= b@);
    }
    true
}

/// Tests whether `s` ends with `suffix`.
pub fn str_ends_with(s: &str, suffix: &str) -> (r: bool)
    ensures
        r == ends_with(s@, suffix@),
{
    let n = s.unicode_len();
    let m = suffix.unicode_len();
    if m > n {
        return false;
    }
    let off = n - m;
    let mut i: usize = 0;
    while i < m
        invariant
            i <= m,
            m <= n,
            off == n - m,
            n == s@.len(),
            m == suffix@.len(),
            forall|k: int| 0 <= k < i ==> s@[off + k] == suffix@[k],
        decreases m - i,
    {
        if s.get_char(off + i) != suffix.get_char(i) {
            proof {
                assert(s@.skip(off as int)[i as int] != suffix@[i as int]);
            }
            return false;
        }
        i += 1;
    }
    proof {
        assert(s@.skip(off as int) =~= suffix@);
    }
    true
}

/// Whether a code unit is the first half of a surrogate pair.
pub open spec fn is_high_surrogate(u: u16) -> bool {
    0xd800 <= u && u <= 0xdbff
}

/// Whether a code unit is the second half of a surrogate pair.
pub open spec fn is_low_surrogate(u: u16) -> bool {
    0xdc00 <= u && u <= 0xdfff
}

/// The scalar value a surrogate pair stands for.
pub open spec fn surrogate_pair_scalar(h: u16, l: u16) -> u32 {
    (0x10000 + (h - 0xd800) * 0x400 + (l - 0xdc00)) as u32
}

/// The characters that UTF-16 code units decode to: a surrogate pair becomes
/// one supplementary character, an unpaired surrogate becomes one
/// replacement character, and any other unit becomes the character of its
/// own value.
pub open spec fn decode_utf16(s: Seq<u16>) -> Seq<char>
    decreases s.len(),
{
    if s.len() == 0 {
        Seq::empty()
    } else if is_high_surrogate(s[0]) && s.len() >= 2 && is_low_surrogate(s[1]) {
        seq![surrogate_pair_scalar(s[0], s[1]) as char] + decode_utf16(s.skip(2))
    } else if is_high_surrogate(s[0]) || is_low_surrogate(s[0]) {
        seq!['\u{fffd}'] + decode_utf16(s.skip(1))
    } else {
        seq![(s[0] as u32) as char] + decode_utf16(s.skip(1))
    }
}

/// Encoding one character more extends the UTF-8 encoding by that
/// character's bytes.
proof fn lemma_encode_utf8_snoc(s: Seq<char>, c: char)
    ensures
        encode_utf8(s.push(c)) == encode_utf8(s) + encode_scalar(c as u32),
    decreases s.len(),
{
    if s.len() == 0 {
        assert(s.push(c).drop_first() =~= Seq::<char>::empty());
        assert(encode_utf8(Seq::<char>::empty()) =~= Seq::<u8>::empty());
        assert(s.push(c)[0] == c);
        assert(encode_utf8(s.push(c)) =~= encode_utf8(s) + encode_scalar(c as u32));
    } else {
        assert(s.push(c).drop_first() =~= s.drop_first().push(c));
        lemma_encode_utf8_snoc(s.drop_first(), c);
        assert(encode_utf8(s.push(c)) =~= encode_utf8(s) + encode_scalar(c as u32));
    }
}

/// Relies on `String::from_utf8`: a vector of valid UTF-8 bytes becomes,
/// without error, the string whose characters decode from exactly those
/// bytes.
#[verifier::external_body]
fn string_from_utf8(bytes: Vec<u8>) -> (r: String)
    requires
        valid_utf8(bytes@),
    ensures
        r@ == decode_utf8(bytes@),
{
    match String::from_utf8(bytes) {
        Ok(s) => s,
        Err(_) => String::new(),
    }
}

/// Appends the UTF-8 encoding of one scalar value.
fn push_scalar_utf8(bytes: &mut Vec<u8>, s: u32)
    requires
        is_scalar(s),
    ensures
        final(bytes)@ == old(bytes)@ + encode_scalar(s),
{
    if s <= 0x7f {
        bytes.push((s & 0x7f) as u8);
    } else if s <= 0x7ff {
        bytes.push(0xc0u8 | (((s >> 6) & 0x1f) as u8));
        bytes.push(0x80u8 | ((s & 0x3f) as u8));
    } else if s <= 0xffff {
        bytes.push(0xe0u8 | (((s >> 12) & 0x0f) as u8));
        bytes.push(0x80u8 | (((s >> 6) & 0x3f) as u8));
        bytes.push(0x80u8 | ((s & 0x3f) as u8));
    } else {
        bytes.push(0xf0u8 | (((s >> 18) & 0x7) as u8));
        bytes.push(0x80u8 | (((s >> 12) & 0x3f) as u8));
        bytes.push(0x80u8 | (((s >> 6) & 0x3f) as u8));
        bytes.push(0x80u8 | ((s & 0x3f) as u8));
    }
    proof {
        assert(final(bytes)@ =~= old(bytes)@ + encode_scalar(s));
    }
}

/// Decodes UTF-16 code units into text, one replacement character for each
/// unpaired surrogate.
pub fn utf16_to_string_lossy(units: &[u16]) -> (r: String)
    ensures
        r@ == decode_utf16(units@),
{
    let n = units.len();
    let mut bytes: Vec<u8> = Vec::new();
    let ghost mut decoded: Seq<char> = Seq::empty();
    let mut i: usize = 0;
    proof {
        assert(encode_utf8(decoded) =~= Seq::<u8>::empty());
        assert(units@.skip(0) =~= units@);
        assert(decoded + decode_utf16(units@) =~= decode_utf16(units@));
    }
    while i < n
        invariant
            i <= n,
            n == units@.len(),
            bytes@ == encode_utf8(decoded),
            decoded + decode_utf16(units@.skip(i as int)) == decode_utf16(units@),
        decreases n - i,
    {
        let u = units[i];
        let ghost rest = units@.skip(i as int);
        proof {
            assert(rest[0] == units@[i as int]);
        }
        if 0xd800 <= u && u <= 0xdbff && i + 1 < n && 0xdc00 <= units[i + 1] && units[i + 1]
            <= 0xdfff {
            let u2 = units[i + 1];
            let s: u32 = 0x10000 + ((u - 0xd800) as u32) * 0x400 + ((u2 - 0xdc00) as u32);
            let ghost c = (s as char);
            proof {
                assert(is_scalar(s));
                assert(c as u32 == s);
                assert(rest[1] == units@[i + 1]);
                assert(rest.skip(2) =~= units@.skip(i + 2));
                assert(decode_utf16(rest) == seq![c] + decode_utf16(units@.skip(i + 2)));
                lemma_encode_utf8_snoc(decoded, c);
                decoded = decoded.push(c);
                assert(decoded + decode_utf16(units@.skip(i + 2)) =~= decode_utf16(units@));
            }
            push_scalar_utf8(&mut bytes, s);
            i += 2;
        } else if 0xd800 <= u && u <= 0xdfff {
            let ghost c = '\u{fffd}';
            proof {
                assert(c as u32 == 0xfffd);
                assert(is_scalar(0xfffd));
                assert(rest.skip(1) =~= units@.skip(i + 1));
                assert(decode_utf16(rest) == seq![c] + decode_utf16(units@.skip(i + 1)));
                lemma_encode_utf8_snoc(decoded, c);
                decoded = decoded.push(c);
                assert(decoded + decode_utf16(units@.skip(i + 1)) =~= decode_utf16(units@));
            }
            push_scalar_utf8(&mut bytes, 0xfffd);
            i += 1;
        } else {
            let s = u as u32;
            let ghost c = (s as char);
            proof {
                assert(is_scalar(s));
                assert(c as u32 == s);
                assert(rest.skip(1) =~= units@.skip(i + 1));
                assert(decode_utf16(rest) == seq![c] + decode_utf16(units@.skip(i + 1)));
                lemma_encode_utf8_snoc(decoded, c);
                decoded = decoded.push(c);
                assert(decoded + decode_utf16(units@.skip(i + 1)) =~= decode_utf16(units@));
            }
            push_scalar_utf8(&mut bytes, s);
            i += 1;
        }
    }
    proof {
        assert(units@.skip(n as int) =~= Seq::<u16>::empty());
        assert(decoded =~= decode_utf16(units@));
        encode_utf8_valid_utf8(decoded);
        encode_utf8_decode_utf8(decoded);
    }
    string_from_utf8(bytes)
}

/// Whether `sub` occurs in `s` starting at position `i`.
pub open spec fn contains_at(s: Seq<char>, sub: Seq<char>, i: int) -> bool {
    &&& 0 <= i
    &&& i + sub.len() <= s.len()
    &&& s.subrange(i, i + sub.len()) == sub
}

/// Whether `sub` occurs anywhere in `s`.
pub open spec fn contains_seq(s: Seq<char>, sub: Seq<char>) -> bool {
    exists|i: int| contains_at(s, sub, i)
}

/// Whether `sub` occurs in `s` starting at position `i`.
fn matches_at(s: &str, sub: &str, i: usize, n: usize, m: usize) -> (r: bool)
    requires
        n == s@.len(),
        m == sub@.len(),
        i + m <= n,
    ensures
        r == (s@.subrange(i as int, i + m) == sub@),
{
    let mut k: usize = 0;
    while k < m
        invariant
            k <= m,
            n == s@.len(),
            m == sub@.len(),
            i + m <= n,
            forall|t: int| 0 <= t < k ==> s@[i + t] == sub@[t],
        decreases m - k,
    {
        if s.get_char(i + k) != sub.get_char(k) {
            proof {
                assert(s@.subrange(i as int, i + m)[k as int] != sub@[k as int]);
            }
            return false;
        }
        k += 1;
    }
    proof {
        assert(s@.subrange(i as int, i + m) =~= sub@);
    }
    true
}

/// Tests whether `s` contains `sub`.
pub fn str_contains(s: &str, sub: &str) -> (r: bool)
    ensures
        r == contains_seq(s@, sub@),
{
    let n = s.unicode_len();
    let m = sub.unicode_len();
    if m > n {
        proof {
            assert(forall|i: int| !contains_at(s@, sub@, i));
        }
        return false;
    }
    if m == 0 {
        proof {
            assert(s@.subrange(0, 0) =~= sub@);
            assert(contains_at(s@, sub@, 0));
        }
        return true;
    }
    let mut i: usize = 0;
    while i <= n - m
        invariant
            1 <= m <= n,
            i <= n - m + 1,
            n == s@.len(),
            m == sub@.len(),
            forall|j: int| 0 <= j < i ==> !contains_at(s@, sub@, j),
        decreases n - i,
    {
        if matches_at(s, sub, i, n, m) {
            proof {
                assert(contains_at(s@, sub@, i as int));
            }
            return true;
        }
        i += 1;
    }
    proof {
        assert forall|j: int| !contains_at(s@, sub@, j) by {
            if 0 <= j < i as int {
                assert(!contains_at(s@, sub@, j));
            } else {
                assert(j < 0 || j + sub@.len() > s@.len());
            }
        }
    }
    false
}

/// An owned wide-string value: the code units that the runtime's
/// length-prefixed string type would hold. An empty value stands for the
/// null string, which the runtime treats as equal to the empty one.
#[derive(Debug, Clone)]
pub struct Bstr {
    units: Vec<u16>,
}

impl View for Bstr {
    type V = Seq<u16>;

    closed spec fn view(&self) -> Seq<u16> {
        self.units@
    }
}

impl Bstr {
    /// The null wide string: no code units.
    pub fn new() -> (r: Self)
        ensures
            r@ == Seq::<u16>::empty(),
    {
        Bstr { units: Vec::new() }
    }

    /// A wide string holding the given code units.
    pub fn from_wide(value: &[u16]) -> (r: Self)
        ensures
            r@ == value@,
    {
        Bstr { units: slice_to_vec(value) }
    }

    /// A wide string holding the UTF-16 encoding of the given text.
    pub fn from_str(value: &str) -> (r: Self)
        ensures
            r@ == utf16(value@),
    {
        Bstr { units: encode_utf16(value) }
    }

    /// Whether this is the null wide string.
    pub fn is_null(&self) -> (r: bool)
        ensures
            r == (self@.len() == 0),
    {
        self.units.len() == 0
    }

    /// The number of code units.
    pub fn len(&self) -> (r: usize)
        ensures
            r == self@.len(),
    {
        self.units.len()
    }

    /// Consumes the wide string and hands its code units to the caller, who
    /// takes over their ownership.
    pub fn into_raw(self) -> (r: Vec<u16>)
        ensures
            r@ == self@,
    {
        self.units
    }

    /// The code units, borrowed.
    pub fn as_units(&self) -> (r: &Vec<u16>)
        ensures
            r@ == self@,
    {
        &self.units
    }

    /// Decodes the wide string into text, one replacement character for each
    /// unpaired surrogate; the null wide string decodes to the empty text.
    pub fn to_string_lossy(&self) -> (r: String)
        ensures
            r@ == decode_utf16(self@),
    {
        utf16_to_string_lossy(self.units.as_slice())
    }
}

impl Default for Bstr {
    /// The null wide string.
    fn default() -> (r: Self)
        ensures
            r@ == Seq::<u16>::empty(),
    {
        Bstr::new()
    }
}

/// Decoding inverts encoding: the UTF-16 code units of any text decode back
/// to exactly that text.
pub proof fn lemma_utf16_round_trip(s: Seq<char>)
    ensures
        decode_utf16(utf16(s)) == s,
    decreases s.len(),
{
    if s.len() == 0 {
        assert(decode_utf16(utf16(s)) =~= s);
    } else {
        let c = s[0];
        let rest = utf16(s.skip(1));
        lemma_utf16_round_trip(s.skip(1));
        vstd::utf8::char_is_scalar(c);
        if (c as u32) < 0x10000 {
            let u = (c as u32) as u16;
            assert(utf16_char(c) =~= seq![u]);
            assert(utf16(s)[0] == u);
            assert(utf16(s).skip(1) =~= rest);
            assert(u as u32 == c as u32);
            assert(!is_high_surrogate(u) && !is_low_surrogate(u));
            assert((u as u32) as char == c) by {
                char_u32_cast(c, c as u32);
            }
            assert(decode_utf16(utf16(s)) =~= s);
        } else {
            let v = (c as u32) - 0x10000;
            let h = (0xd800 + v / 0x400) as u16;
            let l = (0xdc00 + v % 0x400) as u16;
            assert(utf16_char(c) =~= seq![h, l]);
            assert(utf16(s)[0] == h && utf16(s)[1] == l);
            assert(utf16(s).skip(2) =~= rest);
            assert(v <= 0xfffff);
            vstd::arithmetic::div_mod::lemma_fundamental_div_mod(v, 0x400);
            assert(0 <= v % 0x400 < 0x400);
            assert(0 <= v / 0x400 <= 0x3ff);
            assert(is_high_surrogate(h) && is_low_surrogate(l));
            assert(surrogate_pair_scalar(h, l) == c as u32);
            assert(surrogate_pair_scalar(h, l) as char == c) by {
                char_u32_cast(c, c as u32);
            }
            assert(decode_utf16(utf16(s)) =~= s);
        }
    }
}

/// Conversion of text into an owned wide string.
pub trait ComString {
    /// The characters of the text.
    spec fn chars(&self) -> Seq<char>;

    /// Converts the text into an owned wide string.
    fn to_bstr_owned(&self) -> (r: Bstr)
        ensures
            r@ == utf16(self.chars()),
    ;
}

impl ComString for str {
    open spec fn chars(&self) -> Seq<char> {
        self@
    }

    fn to_bstr_owned(&self) -> (r: Bstr) {
        Bstr::from_str(self)
    }
}

impl ComString for String {
    open spec fn chars(&self) -> Seq<char> {
        self@
    }

    fn to_bstr_owned(&self) -> (r: Bstr) {
        Bstr::from_str(self.as_str())
    }
}

} // verus!
