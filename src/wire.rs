//! Byte-level helpers: big-endian integers, hexadecimal and decimal text,
//! UTF-8 decoding. Each wrapper below makes one call into byteorder, hex or
//! std and states what that call returns.
use byteorder::ByteOrder;
use vstd::prelude::*;
use vstd::utf8::*;

verus! {

/// The value of two bytes read most significant first.
pub open spec fn be16(b0: u8, b1: u8) -> int {
    b0 as int * 256 + b1 as int
}

/// The value of four bytes read most significant first.
pub open spec fn be32(b0: u8, b1: u8, b2: u8, b3: u8) -> int {
    ((b0 as int * 256 + b1 as int) * 256 + b2 as int) * 256 + b3 as int
}

/// The two bytes of `n`, most significant first.
pub open spec fn be16_bytes(n: u16) -> Seq<u8> {
    seq![(n / 256) as u8, (n % 256) as u8]
}

/// The four bytes of `n`, most significant first.
pub open spec fn be32_bytes(n: u32) -> Seq<u8> {
    seq![(n / 0x100_0000) as u8, ((n / 0x1_0000) % 256) as u8, ((n / 256) % 256) as u8, (n % 256) as u8]
}

/// The sixteen upper-case hexadecimal digits.
pub open spec fn upper_hex_digit(n: int) -> char {
    seq!['0', '1', '2', '3', '4', '5', '6', '7', '8', '9', 'A', 'B', 'C', 'D', 'E', 'F'][n]
}

/// Two upper-case hexadecimal digits per byte, high nibble first.
pub open spec fn hex_upper(b: Seq<u8>) -> Seq<char>
    decreases b.len(),
{
    if b.len() == 0 {
        seq![]
    } else {
        seq![upper_hex_digit(b[0] as int / 16), upper_hex_digit(b[0] as int % 16)] + hex_upper(b.drop_first())
    }
}

/// The decimal digits of `n`, without leading zeros.
pub open spec fn decimal(n: nat) -> Seq<char>
    decreases n,
{
    if n < 10 {
        seq![upper_hex_digit(n as int)]
    } else {
        decimal(n / 10).push(upper_hex_digit((n % 10) as int))
    }
}

/// Relies on byteorder's `BigEndian::read_u16`: the first two bytes, most
/// significant first (it panics on fewer than two).
#[verifier::external_body]
pub(crate) fn read_be_u16(b: &[u8]) -> (r: u16)
    requires
        b@.len() >= 2,
    ensures
        r as int == be16(b@[0], b@[1]),
{
    byteorder::BigEndian::read_u16(b)
}

/// Relies on byteorder's `BigEndian::read_u32`: the first four bytes, most
/// significant first (it panics on fewer than four).
#[verifier::external_body]
pub(crate) fn read_be_u32(b: &[u8]) -> (r: u32)
    requires
        b@.len() >= 4,
    ensures
        r as int == be32(b@[0], b@[1], b@[2], b@[3]),
{
    byteorder::BigEndian::read_u32(b)
}

/// Relies on byteorder's `BigEndian::write_u16`: the two bytes of `n`, most
/// significant first, appended to `out`.
#[verifier::external_body]
pub(crate) fn push_be_u16(out: &mut Vec<u8>, n: u16)
    ensures
        final(out)@ == old(out)@ + be16_bytes(n),
{
    let mut buf = [0u8; 2];
    byteorder::BigEndian::write_u16(&mut buf, n);
    out.extend_from_slice(&buf);
}

/// Relies on byteorder's `BigEndian::write_u32`: the four bytes of `n`, most
/// significant first, appended to `out`.
#[verifier::external_body]
pub(crate) fn push_be_u32(out: &mut Vec<u8>, n: u32)
    ensures
        final(out)@ == old(out)@ + be32_bytes(n),
{
    let mut buf = [0u8; 4];
    byteorder::BigEndian::write_u32(&mut buf, n);
    out.extend_from_slice(&buf);
}

/// Relies on `hex::encode_upper`: two upper-case hexadecimal digits for each
/// byte, in order.
#[verifier::external_body]
pub(crate) fn encode_hex_upper(b: &[u8]) -> (r: String)
    ensures
        r@ == hex_upper(b@),
{
    hex::encode_upper(b)
}

/// Relies on `std::str::from_utf8`: it accepts exactly the valid UTF-8
/// sequences and yields the text they encode.
#[verifier::external_body]
pub(crate) fn text_from_utf8(b: &[u8]) -> (r: Option<String>)
    ensures
        r.is_some() == valid_utf8(b@),
        r matches Some(s) ==> s@ == decode_utf8(b@),
{
    match std::str::from_utf8(b) {
        Ok(s) => Some(s.to_owned()),
        Err(_) => None,
    }
}
/// Text with only code points below 0x80 is encoded one byte per
/// character, each byte the character's code point.
pub(crate) proof fn lemma_ascii_encoding(s: Seq<char>)
    requires
        forall|i: int| 0 <= i < s.len() ==> (#[trigger] s[i] as u32) < 0x80,
    ensures
        encode_utf8(s).len() == s.len(),
        forall|i: int| 0 <= i < s.len() ==> encode_utf8(s)[i] as u32 == #[trigger] s[i] as u32,
    decreases s.len(),
{
    if s.len() > 0 {
        let c = s[0] as u32;
        assert(c < 0x80);
        assert(((c & 0x7F) as u8) as u32 == c) by (bit_vector)
            requires
                c < 0x80u32,
        ;
        assert forall|i: int| 0 <= i < s.drop_first().len() implies (
        #[trigger] s.drop_first()[i] as u32) < 0x80 by {
            assert(s.drop_first()[i] == s[i + 1]);
        }
        lemma_ascii_encoding(s.drop_first());
        assert forall|i: int| 0 <= i < s.len() implies encode_utf8(s)[i] as u32
            == #[trigger] s[i] as u32 by {
            if i > 0 {
                assert(s[i] == s.drop_first()[i - 1]);
            }
        }
    }
}

/// ASCII bytes whose codes are those of `chars`, as text.
fn ascii_text(b: Vec<u8>, Ghost(chars): Ghost<Seq<char>>) -> (r: String)
    requires
        b@.len() == chars.len(),
        forall|i: int| 0 <= i < chars.len() ==> (#[trigger] chars[i] as u32) < 0x80,
        forall|i: int| 0 <= i < chars.len() ==> b@[i] as u32 == #[trigger] chars[i] as u32,
    ensures
        r@ == chars,
{
    proof {
        lemma_ascii_encoding(chars);
        assert forall|i: int| 0 <= i < chars.len() implies b@[i] == encode_utf8(chars)[i] by {
            assert(b@[i] as u32 == chars[i] as u32);
        }
        assert(b@ =~= encode_utf8(chars));
        encode_utf8_valid_utf8(chars);
        encode_utf8_decode_utf8(chars);
    }
    match text_from_utf8(b.as_slice()) {
        Some(t) => t,
        None => String::new(),
    }
}

/// Appends the decimal digits of `n` as ASCII bytes.
fn push_decimal(out: &mut Vec<u8>, n: u8)
    ensures
        final(out)@.len() == old(out)@.len() + decimal(n as nat).len(),
        forall|i: int| 0 <= i < old(out)@.len() ==> final(out)@[i] == old(out)@[i],
        forall|i: int|
            0 <= i < decimal(n as nat).len() ==> (#[trigger] decimal(n as nat)[i] as u32) < 0x80
                && final(out)@[old(out)@.len() + i] as u32 == decimal(n as nat)[i] as u32,
{
    let ghost d = decimal(n as nat);
    proof {
        reveal_with_fuel(decimal, 3);
    }
    if n >= 100 {
        out.push(0x30 + n / 100);
        out.push(0x30 + (n / 10) % 10);
    } else if n >= 10 {
        out.push(0x30 + n / 10);
    }
    out.push(0x30 + n % 10);
    proof {
        if n >= 100 {
            assert(d =~= seq![
                upper_hex_digit((n / 100) as int),
                upper_hex_digit(((n / 10) % 10) as int),
                upper_hex_digit((n % 10) as int),
            ]);
        } else if n >= 10 {
            assert(d =~= seq![upper_hex_digit((n / 10) as int), upper_hex_digit((n % 10) as int)]);
        } else {
            assert(d =~= seq![upper_hex_digit(n as int)]);
        }
    }
}

/// The number in decimal.
pub(crate) fn decimal_text(n: u8) -> (r: String)
    ensures
        r@ == decimal(n as nat),
{
    let mut b: Vec<u8> = Vec::new();
    push_decimal(&mut b, n);
    ascii_text(b, Ghost(decimal(n as nat)))
}

/// Both numbers in decimal with a dot between them.
pub(crate) fn dotted_version(major: u8, minor: u8) -> (r: String)
    ensures
        r@ == decimal(major as nat) + seq!['.'] + decimal(minor as nat),
{
    let ghost chars = decimal(major as nat) + seq!['.'] + decimal(minor as nat);
    let mut b: Vec<u8> = Vec::new();
    push_decimal(&mut b, major);
    b.push(0x2E);
    push_decimal(&mut b, minor);
    proof {
        let m = decimal(major as nat).len();
        assert forall|i: int| 0 <= i < chars.len() implies (#[trigger] chars[i] as u32) < 0x80
            && b@[i] as u32 == chars[i] as u32 by {
            if i < m {
                assert(chars[i] == decimal(major as nat)[i]);
            } else if i == m {
                assert(chars[i] == '.');
            } else {
                assert(chars[i] == decimal(minor as nat)[i - m - 1]);
            }
        }
    }
    ascii_text(b, Ghost(chars))
}

} // verus!
