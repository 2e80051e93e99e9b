//! Text helpers: hexadecimal and decimal rendering, byte comparison.
use vstd::prelude::*;
use vstd::string::StringExecFns;

verus! {

/// The lower-case hexadecimal digit for `d < 16`.
pub open spec fn hex_digit(d: int) -> char {
    if d < 10 {
        (48 + d) as char
    } else {
        (87 + d) as char
    }
}

/// The decimal digit for `d < 10`.
pub open spec fn dec_digit(d: int) -> char {
    (48 + d) as char
}

/// Two lower-case hexadecimal digits per byte, most significant nibble first.
pub open spec fn spec_hex_bytes(bytes: Seq<u8>) -> Seq<char>
    decreases bytes.len(),
{
    if bytes.len() == 0 {
        Seq::empty()
    } else {
        spec_hex_bytes(bytes.drop_last()) + seq![
            hex_digit((bytes.last() / 16) as int),
            hex_digit((bytes.last() % 16) as int),
        ]
    }
}

/// `n` in lower-case hexadecimal, without leading zeros (`"0"` for zero).
pub open spec fn spec_hex_u64(n: nat) -> Seq<char>
    decreases n,
{
    if n < 16 {
        seq![hex_digit(n as int)]
    } else {
        spec_hex_u64(n / 16).push(hex_digit((n % 16) as int))
    }
}

/// `n` in decimal, without leading zeros (`"0"` for zero).
pub open spec fn spec_decimal(n: nat) -> Seq<char>
    decreases n,
{
    if n < 10 {
        seq![dec_digit(n as int)]
    } else {
        spec_decimal(n / 10).push(dec_digit((n % 10) as int))
    }
}

/// Appends `c` to `s` with `String::push`, which the standard library
/// documents as appending the character at the end.
#[verifier::external_body]
pub fn push_char(s: &mut String, c: char)
    ensures
        final(s)@ == old(s)@.push(c),
{
    s.push(c);
}

fn hex_char(d: u8) -> (c: char)
    requires
        d < 16,
    ensures
        c == hex_digit(d as int),
{
    if d < 10 {
        (48u8 + d) as char
    } else {
        (87u8 + d) as char
    }
}

fn dec_char(d: u8) -> (c: char)
    requires
        d < 10,
    ensures
        c == dec_digit(d as int),
{
    (48u8 + d) as char
}

/// Appends the hexadecimal rendering of `bytes` to `s`.
pub fn push_hex_bytes(s: &mut String, bytes: &[u8])
    ensures
        final(s)@ == old(s)@ + spec_hex_bytes(bytes@),
{
    let ghost start = s@;
    let mut i: usize = 0;
    while i < bytes.len()
        invariant
            i <= bytes@.len(),
            s@ == start + spec_hex_bytes(bytes@.subrange(0, i as int)),
        decreases bytes@.len() - i,
    {
        let b = bytes[i];
        push_char(s, hex_char(b / 16));
        push_char(s, hex_char(b % 16));
        i = i + 1;
        assert(bytes@.subrange(0, i as int).drop_last() =~= bytes@.subrange(0, i - 1));
        assert(s@ =~= start + spec_hex_bytes(bytes@.subrange(0, i as int)));
    }
    assert(bytes@.subrange(0, i as int) =~= bytes@);
}

/// `"0x"` followed by the hexadecimal rendering of `bytes`.
pub fn hex_string_0x(bytes: &[u8]) -> (s: String)
    ensures
        s@ == seq!['0', 'x'] + spec_hex_bytes(bytes@),
{
    let mut s = String::new();
    push_char(&mut s, '0');
    push_char(&mut s, 'x');
    push_hex_bytes(&mut s, bytes);
    s
}

/// Appends `n` in hexadecimal to `s`.
pub fn push_hex_u64(s: &mut String, n: u64)
    ensures
        final(s)@ == old(s)@ + spec_hex_u64(n as nat),
    decreases n,
{
    if n < 16 {
        push_char(s, hex_char(n as u8));
        assert(spec_hex_u64(n as nat) =~= seq![hex_digit(n as int)]);
    } else {
        push_hex_u64(s, n / 16);
        push_char(s, hex_char((n % 16) as u8));
    }
}

/// Appends `n` in decimal to `s`.
pub fn push_decimal(s: &mut String, n: u64)
    ensures
        final(s)@ == old(s)@ + spec_decimal(n as nat),
    decreases n,
{
    if n < 10 {
        push_char(s, dec_char(n as u8));
        assert(spec_decimal(n as nat) =~= seq![dec_digit(n as int)]);
    } else {
        push_decimal(s, n / 10);
        push_char(s, dec_char((n % 10) as u8));
    }
}

/// A copy of `v`.
pub fn copy_bytes(v: &[u8]) -> (r: Vec<u8>)
    ensures
        r@ == v@,
{
    vstd::slice::slice_to_vec(v)
}

/// An owned copy of `s`.
pub fn str_to_string(s: &str) -> (r: String)
    ensures
        r@ == s@,
{
    String::from_str(s)
}

/// `prefix` followed by `detail`.
pub fn with_detail(prefix: &str, detail: &String) -> (r: String)
    ensures
        r@ == prefix@ + detail@,
{
    let mut r = str_to_string(prefix);
    r.append(detail.as_str());
    r
}

/// Whether two byte strings are equal.
pub fn bytes_eq(a: &[u8], b: &[u8]) -> (r: bool)
    ensures
        r == (a@ == b@),
{
    if a.len() != b.len() {
        return false;
    }
    let mut i: usize = 0;
    while i < a.len()
        invariant
            a@.len() == b@.len(),
            i <= a@.len(),
            forall|k: int| 0 <= k < i ==> a@[k] == b@[k],
        decreases a@.len() - i,
    {
        if a[i] != b[i] {
            return false;
        }
        i = i + 1;
    }
    assert(a@ =~= b@);
    true
}

} // verus!
