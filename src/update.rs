//! Encoding of a partial configuration update into TLV entries.
use crate::tlv::{
    CURVE_SECP256K1, OPT_DISABLE_POWER_RESET, OPT_LED_DIMMABLE, OPT_LED_STEADY, PRODUCT_NAME_MAX,
    TAG_CURVES, TAG_LED_BRIGHTNESS, TAG_LED_DRIVER, TAG_LED_GPIO, TAG_OPTS, TAG_UP_BTN,
    TAG_USB_PRODUCT, TAG_VIDPID,
};
use crate::types::{AppConfigInput, AppError, InputError};
use crate::wire::{
    be16_bytes, be32_bytes, lemma_ascii_encoding, push_be_u16, push_be_u32, upper_hex_digit,
};
use vstd::prelude::*;
use vstd::utf8::*;

verus! {

/// The value of the hexadecimal digit with code point `x`, either case.
pub open spec fn hex_code_value(x: u32) -> Option<int> {
    if 0x30 <= x <= 0x39 {
        Some(x - 0x30)
    } else if 0x41 <= x <= 0x46 {
        Some(x - 0x37)
    } else if 0x61 <= x <= 0x66 {
        Some(x - 0x57)
    } else {
        None
    }
}

/// The digit value of a character known to be a hexadecimal digit.
pub open spec fn hex_char_value(c: char) -> int {
    hex_code_value(c as u32)->0
}

/// Exactly four hexadecimal digits, either case: the 16-bit value they
/// write. Anything else has no value.
pub open spec fn hex4_value(s: Seq<char>) -> Option<u16> {
    if s.len() == 4 && (forall|i: int| 0 <= i < 4 ==> (#[trigger] hex_code_value(s[i] as u32)) is Some) {
        Some(
            (hex_char_value(s[0]) * 4096 + hex_char_value(s[1]) * 256 + hex_char_value(s[2]) * 16
                + hex_char_value(s[3])) as u16,
        )
    } else {
        None
    }
}

/// The hexadecimal digits of `s` in upper case.
pub open spec fn upper_hex_text(s: Seq<char>) -> Seq<char> {
    Seq::new(s.len(), |i: int| upper_hex_digit(hex_char_value(s[i])))
}

/// Text whose UTF-8 bytes are all below 0x80 has only code points below
/// 0x80.
proof fn lemma_ascii_bytes(s: Seq<char>)
    requires
        forall|i: int| 0 <= i < encode_utf8(s).len() ==> encode_utf8(s)[i] < 0x80,
    ensures
        forall|i: int| 0 <= i < s.len() ==> (#[trigger] s[i] as u32) < 0x80,
    decreases s.len(),
{
    if s.len() > 0 {
        let c = s[0] as u32;
        let e = encode_scalar(c);
        assert(encode_utf8(s) == e + encode_utf8(s.drop_first()));
        assert(encode_utf8(s)[0] == e[0]);
        assert(has_width_1_encoding(c)) by {
            if !has_width_1_encoding(c) {
                assert((0xC0u8 | (((c >> 6) & 0x1F) as u8)) >= 0x80u8) by (bit_vector);
                assert((0xE0u8 | (((c >> 12) & 0x0F) as u8)) >= 0x80u8) by (bit_vector);
                assert((0xF0u8 | (((c >> 18) & 0x7) as u8)) >= 0x80u8) by (bit_vector);
            }
        }
        assert forall|i: int| 0 <= i < encode_utf8(s.drop_first()).len() implies encode_utf8(
            s.drop_first(),
        )[i] < 0x80 by {
            assert(encode_utf8(s)[e.len() + i] == encode_utf8(s.drop_first())[i]);
        }
        lemma_ascii_bytes(s.drop_first());
        assert forall|i: int| 0 <= i < s.len() implies (#[trigger] s[i] as u32) < 0x80 by {
            if i > 0 {
                assert(s[i] == s.drop_first()[i - 1]);
            }
        }
    }
}

/// Four hexadecimal digits are ASCII, so their UTF-8 bytes are their codes.
proof fn lemma_hex4_bytes(s: Seq<char>)
    requires
        hex4_value(s) is Some,
    ensures
        encode_utf8(s).len() == 4,
        forall|i: int| 0 <= i < 4 ==> encode_utf8(s)[i] as u32 == #[trigger] s[i] as u32,
{
    assert forall|i: int| 0 <= i < s.len() implies (#[trigger] s[i] as u32) < 0x80 by {
        assert(hex_code_value(s[i] as u32) is Some);
    }
    lemma_ascii_encoding(s);
}

/// The value of one hexadecimal digit byte.
fn hex_byte(c: u8) -> (r: Option<u16>)
    ensures
        match hex_code_value(c as u32) {
            Some(x) => r matches Some(y) && y as int == x,
            None => r is None,
        },
{
    if 0x30 <= c && c <= 0x39 {
        Some((c - 0x30) as u16)
    } else if 0x41 <= c && c <= 0x46 {
        Some((c - 0x37) as u16)
    } else if 0x61 <= c && c <= 0x66 {
        Some((c - 0x57) as u16)
    } else {
        None
    }
}

/// Parses exactly four hexadecimal digits (see `hex4_value`).
pub fn parse_hex4(s: &str) -> (r: Option<u16>)
    ensures
        r == hex4_value(s@),
{
    let b = s.as_bytes();
    proof {
        if hex4_value(s@) is Some {
            lemma_hex4_bytes(s@);
        }
    }
    if b.len() != 4 {
        return None;
    }
    let d0 = match hex_byte(b[0]) {
        Some(d) => d,
        None => return None,
    };
    let d1 = match hex_byte(b[1]) {
        Some(d) => d,
        None => return None,
    };
    let d2 = match hex_byte(b[2]) {
        Some(d) => d,
        None => return None,
    };
    let d3 = match hex_byte(b[3]) {
        Some(d) => d,
        None => return None,
    };
    proof {
        lemma_ascii_bytes(s@);
        lemma_ascii_encoding(s@);
        assert(forall|i: int| 0 <= i < 4 ==> b@[i] as u32 == #[trigger] s@[i] as u32);
        assert(hex_code_value(s@[0] as u32) is Some);
        assert(hex_code_value(s@[1] as u32) is Some);
        assert(hex_code_value(s@[2] as u32) is Some);
        assert(hex_code_value(s@[3] as u32) is Some);
    }
    Some(d0 * 4096 + d1 * 256 + d2 * 16 + d3)
}

/// The options word of three flags. Power cycling on reset is the default,
/// so its bit records that it is disabled.
pub open spec fn options_word(dimmable: bool, power_cycle: bool, steady: bool) -> u16 {
    (if dimmable { OPT_LED_DIMMABLE } else { 0u16 }) | (if !power_cycle {
        OPT_DISABLE_POWER_RESET
    } else {
        0u16
    }) | (if steady { OPT_LED_STEADY } else { 0u16 })
}

/// The curves word with secp256k1 on or off.
pub open spec fn curves_word(secp256k1: bool) -> u32 {
    if secp256k1 { CURVE_SECP256K1 } else { 0u32 }
}

/// A one-byte entry for a present field.
pub open spec fn byte_entry(tag: u8, v: Option<u8>) -> Seq<u8> {
    match v {
        Some(x) => seq![tag, 1u8, x],
        None => seq![],
    }
}

/// The VID/PID entry: written when both are present and each is exactly
/// four hexadecimal digits.
pub open spec fn vidpid_entry(u: AppConfigInput) -> Result<Seq<u8>, InputError> {
    match (u.vid, u.pid) {
        (Some(v), Some(p)) => match hex4_value(v@) {
            None => Err(InputError::InvalidVid),
            Some(a) => match hex4_value(p@) {
                None => Err(InputError::InvalidPid),
                Some(b) => Ok(seq![TAG_VIDPID, 4u8] + be16_bytes(a) + be16_bytes(b)),
            },
        },
        _ => Ok(seq![]),
    }
}

/// The options entry: written when all three flags are present.
pub open spec fn options_entry(u: AppConfigInput) -> Seq<u8> {
    match (u.led_dimmable, u.power_cycle_on_reset, u.led_steady) {
        (Some(d), Some(c), Some(s)) => seq![TAG_OPTS, 2u8] + be16_bytes(options_word(d, c, s)),
        _ => seq![],
    }
}

/// The curves entry: written when the secp256k1 flag is present.
pub open spec fn curves_entry(u: AppConfigInput) -> Seq<u8> {
    match u.enable_secp256k1 {
        Some(e) => seq![TAG_CURVES, 4u8] + be32_bytes(curves_word(e)),
        None => seq![],
    }
}

/// The product-name entry: the UTF-8 bytes and a NUL terminator, written
/// when the name is present and not empty, refused above 32 bytes in all.
pub open spec fn name_entry(u: AppConfigInput) -> Result<Seq<u8>, InputError> {
    match u.product_name {
        Some(n) => if n@.len() == 0 {
            Ok(seq![])
        } else if encode_utf8(n@).len() + 1 > PRODUCT_NAME_MAX {
            Err(InputError::ProductNameTooLong)
        } else {
            Ok(seq![TAG_USB_PRODUCT, (encode_utf8(n@).len() + 1) as u8] + encode_utf8(n@) + seq![0u8])
        },
        None => Ok(seq![]),
    }
}

/// The TLV blob of an update, entries in fixed order, or the first input
/// error (VID/PID before the product name).
pub open spec fn encode_spec(u: AppConfigInput) -> Result<Seq<u8>, InputError> {
    match vidpid_entry(u) {
        Err(e) => Err(e),
        Ok(vp) => match name_entry(u) {
            Err(e) => Err(e),
            Ok(ne) => Ok(
                vp + byte_entry(TAG_LED_GPIO, u.led_gpio) + byte_entry(
                    TAG_LED_BRIGHTNESS,
                    u.led_brightness,
                ) + byte_entry(TAG_UP_BTN, u.touch_timeout) + options_entry(u) + curves_entry(u)
                    + byte_entry(TAG_LED_DRIVER, u.led_driver) + ne,
            ),
        },
    }
}

/// The options word of three flags (see `options_word`).
pub fn encode_options(dimmable: bool, power_cycle: bool, steady: bool) -> (w: u16)
    ensures
        w == options_word(dimmable, power_cycle, steady),
{
    let dim: u16 = if dimmable { OPT_LED_DIMMABLE } else { 0 };
    let no_cycle: u16 = if !power_cycle { OPT_DISABLE_POWER_RESET } else { 0 };
    let still: u16 = if steady { OPT_LED_STEADY } else { 0 };
    dim | no_cycle | still
}

fn push_byte_entry(out: &mut Vec<u8>, tag: u8, v: Option<u8>)
    ensures
        final(out)@ == old(out)@ + byte_entry(tag, v),
{
    if let Some(x) = v {
        out.push(tag);
        out.push(1);
        out.push(x);
    }
    assert(final(out)@ =~= old(out)@ + byte_entry(tag, v));
}

fn push_vidpid(out: &mut Vec<u8>, u: &AppConfigInput) -> (r: Result<(), AppError>)
    ensures
        match vidpid_entry(*u) {
            Ok(e) => r is Ok && final(out)@ == old(out)@ + e,
            Err(e) => r matches Err(AppError::Io(x)) && x == e,
        },
{
    if let Some(vid) = &u.vid {
        if let Some(pid) = &u.pid {
            let a = match parse_hex4(vid.as_str()) {
                Some(a) => a,
                None => return Err(AppError::Io(InputError::InvalidVid)),
            };
            let b = match parse_hex4(pid.as_str()) {
                Some(b) => b,
                None => return Err(AppError::Io(InputError::InvalidPid)),
            };
            out.push(TAG_VIDPID);
            out.push(4);
            push_be_u16(out, a);
            push_be_u16(out, b);
            assert(final(out)@ =~= old(out)@ + (seq![TAG_VIDPID, 4u8] + be16_bytes(a) + be16_bytes(b)));
            return Ok(());
        }
    }
    assert(final(out)@ =~= old(out)@ + Seq::<u8>::empty());
    Ok(())
}

fn push_options(out: &mut Vec<u8>, u: &AppConfigInput)
    ensures
        final(out)@ == old(out)@ + options_entry(*u),
{
    if let Some(d) = u.led_dimmable {
        if let Some(c) = u.power_cycle_on_reset {
            if let Some(st) = u.led_steady {
                out.push(TAG_OPTS);
                out.push(2);
                push_be_u16(out, encode_options(d, c, st));
            }
        }
    }
    assert(final(out)@ =~= old(out)@ + options_entry(*u));
}

fn push_curves(out: &mut Vec<u8>, u: &AppConfigInput)
    ensures
        final(out)@ == old(out)@ + curves_entry(*u),
{
    if let Some(e) = u.enable_secp256k1 {
        let w: u32 = if e { CURVE_SECP256K1 } else { 0 };
        out.push(TAG_CURVES);
        out.push(4);
        push_be_u32(out, w);
    }
    assert(final(out)@ =~= old(out)@ + curves_entry(*u));
}

fn push_name(out: &mut Vec<u8>, u: &AppConfigInput) -> (r: Result<(), AppError>)
    ensures
        match name_entry(*u) {
            Ok(e) => r is Ok && final(out)@ == old(out)@ + e,
            Err(e) => r matches Err(AppError::Io(x)) && x == e,
        },
{
    if let Some(name) = &u.product_name {
        if !name.as_str().is_empty() {
            let nb = name.as_str().as_bytes();
            if nb.len() >= PRODUCT_NAME_MAX {
                return Err(AppError::Io(InputError::ProductNameTooLong));
            }
            out.push(TAG_USB_PRODUCT);
            out.push((nb.len() + 1) as u8);
            out.extend_from_slice(nb);
            out.push(0);
            assert(final(out)@ =~= old(out)@ + (seq![TAG_USB_PRODUCT, (nb@.len() + 1) as u8] + nb@
                + seq![0u8]));
            return Ok(());
        }
    }
    assert(final(out)@ =~= old(out)@ + Seq::<u8>::empty());
    Ok(())
}

/// Encodes an update into TLV entries: only present fields are written, in
/// the order of `encode_spec`. Fails, before anything is sent, on an invalid
/// VID or PID or a product name longer than 31 bytes.
pub fn encode_update(u: &AppConfigInput) -> (r: Result<Vec<u8>, AppError>)
    ensures
        match encode_spec(*u) {
            Ok(b) => r matches Ok(v) && v@ == b,
            Err(e) => r matches Err(AppError::Io(x)) && x == e,
        },
        r matches Ok(v) ==> v@.len() <= 255,
{
    let mut tlv: Vec<u8> = Vec::new();
    push_vidpid(&mut tlv, u)?;
    push_byte_entry(&mut tlv, TAG_LED_GPIO, u.led_gpio);
    push_byte_entry(&mut tlv, TAG_LED_BRIGHTNESS, u.led_brightness);
    push_byte_entry(&mut tlv, TAG_UP_BTN, u.touch_timeout);
    push_options(&mut tlv, u);
    push_curves(&mut tlv, u);
    push_byte_entry(&mut tlv, TAG_LED_DRIVER, u.led_driver);
    push_name(&mut tlv, u)?;
    Ok(tlv)
}

} // verus!
