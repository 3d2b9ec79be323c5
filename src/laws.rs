//! Properties that relate encoding and decoding, and what a status read
//! does with a refused response.
use crate::apdu::{body, has_success_trailer, trailer};
use crate::session::{read_step_spec, ReadStep, StatusRead};
use crate::tlv::{
    apply_entry, decode_entries, decode_spec, name_text, options_flags,
    strip_trailing_nul, CURVE_SECP256K1, OPT_DISABLE_POWER_RESET, TAG_CURVES, TAG_LED_BRIGHTNESS,
    TAG_LED_DRIVER, TAG_LED_GPIO, TAG_OPTS, TAG_UP_BTN, TAG_USB_PRODUCT, TAG_VIDPID,
};
use crate::types::{empty_config, AppConfigInput, AppError, ConfigModel, InputError};
use crate::update::{
    byte_entry, curves_entry, curves_word, encode_spec, name_entry, options_entry, options_word,
    hex4_value, hex_char_value, hex_code_value, upper_hex_text, vidpid_entry,
};
use crate::wire::{be16, be16_bytes, be32, be32_bytes, hex_upper};
use vstd::prelude::*;
use vstd::utf8::*;

verus! {

broadcast use {encode_utf8_valid_utf8, encode_utf8_decode_utf8};

/// Reading back the two bytes of a 16-bit number gives the number.
pub proof fn lemma_be16_round_trip(n: u16)
    ensures
        be16(be16_bytes(n)[0], be16_bytes(n)[1]) == n,
{
}

/// Reading back the four bytes of a 32-bit number gives the number.
pub proof fn lemma_be32_round_trip(n: u32)
    ensures
        be32(be32_bytes(n)[0], be32_bytes(n)[1], be32_bytes(n)[2], be32_bytes(n)[3]) == n,
{
}

/// The options word keeps the three flags apart, and the power-cycle flag is
/// stored inverted: its bit is clear exactly when power cycling is enabled.
pub proof fn lemma_options_round_trip(dimmable: bool, power_cycle: bool, steady: bool)
    ensures
        options_flags(options_word(dimmable, power_cycle, steady)) == (dimmable, power_cycle, steady),
        ((options_word(dimmable, power_cycle, steady) & OPT_DISABLE_POWER_RESET) == 0) == power_cycle,
{
    let w = options_word(dimmable, power_cycle, steady);
    assert(((w & 2u16) != 0) == dimmable && ((w & 4u16) == 0) == power_cycle && ((w & 8u16) != 0)
        == steady) by (bit_vector)
        requires
            w == (if dimmable { 2u16 } else { 0u16 }) | (if !power_cycle { 4u16 } else { 0u16 }) | (
            if steady { 8u16 } else { 0u16 }),
    ;
}

/// The curves word records the secp256k1 flag.
pub proof fn lemma_curves_round_trip(secp256k1: bool)
    ensures
        ((curves_word(secp256k1) & CURVE_SECP256K1) != 0) == secp256k1,
{
    assert((8u32 & 8u32) != 0 && (0u32 & 8u32) == 0) by (bit_vector);
}

/// A piece of a blob: nothing, or one complete entry.
pub open spec fn is_piece(p: Seq<u8>) -> bool {
    p.len() == 0 || (p.len() >= 2 && p[1] as int == p.len() - 2)
}

/// What a piece does to the configuration.
#[verifier::opaque]
pub open spec fn apply_piece(c: ConfigModel, p: Seq<u8>) -> ConfigModel {
    if p.len() == 0 {
        c
    } else {
        apply_entry(c, p[0], p.subrange(2, p.len() as int))
    }
}

/// Decoding a complete entry followed by more bytes applies the entry, then
/// decodes the rest.
pub proof fn lemma_decode_piece(c: ConfigModel, p: Seq<u8>, rest: Seq<u8>)
    requires
        is_piece(p),
    ensures
        decode_entries(c, p + rest) == decode_entries(apply_piece(c, p), rest),
{
    reveal(apply_piece);
    if p.len() == 0 {
        assert(p + rest =~= rest);
    } else {
        let d = p + rest;
        assert(d.subrange(2, 2 + d[1] as int) =~= p.subrange(2, p.len() as int));
        assert(d.subrange(2 + d[1] as int, d.len() as int) =~= rest);
    }
}

/// A run of complete entries.
pub open spec fn complete_entries(p: Seq<u8>) -> bool
    decreases p.len(),
{
    if p.len() == 0 {
        true
    } else if p.len() < 2 || 2 + p[1] as int > p.len() {
        false
    } else {
        complete_entries(p.subrange(2 + p[1] as int, p.len() as int))
    }
}

/// An entry whose header or declared value runs past the end of the bytes.
pub open spec fn truncated_entry(t: Seq<u8>) -> bool {
    t.len() < 2 || 2 + t[1] as int > t.len()
}

/// Scanning past complete entries into a truncated one stops there: the
/// result is what the complete entries alone give.
pub proof fn lemma_decode_stops_at_truncation(c: ConfigModel, p: Seq<u8>, t: Seq<u8>)
    requires
        complete_entries(p),
        truncated_entry(t),
    ensures
        decode_entries(c, p + t) == decode_entries(c, p),
    decreases p.len(),
{
    if p.len() == 0 {
        assert(p + t =~= t);
    } else {
        let len = p[1] as int;
        let d = p + t;
        assert(d.subrange(2, 2 + len) =~= p.subrange(2, 2 + len));
        assert(d.subrange(2 + len, d.len() as int) =~= p.subrange(2 + len, p.len() as int) + t);
        lemma_decode_stops_at_truncation(
            apply_entry(c, p[0], p.subrange(2, 2 + len)),
            p.subrange(2 + len, p.len() as int),
            t,
        );
    }
}

/// A blob made of complete entries and then a truncated one decodes to the
/// configuration of the complete entries: no error, nothing lost before the
/// truncation.
pub proof fn lemma_truncated_blob(p: Seq<u8>, t: Seq<u8>)
    requires
        complete_entries(p),
        truncated_entry(t),
    ensures
        decode_spec(p + t) == decode_spec(p),
{
    lemma_decode_stops_at_truncation(empty_config(), p, t);
}

/// The pieces `encode_spec` joins, in order, when it succeeds.
pub open spec fn update_pieces(u: AppConfigInput) -> Seq<Seq<u8>> {
    seq![
        vidpid_entry(u)->Ok_0,
        byte_entry(TAG_LED_GPIO, u.led_gpio),
        byte_entry(TAG_LED_BRIGHTNESS, u.led_brightness),
        byte_entry(TAG_UP_BTN, u.touch_timeout),
        options_entry(u),
        curves_entry(u),
        byte_entry(TAG_LED_DRIVER, u.led_driver),
        name_entry(u)->Ok_0,
    ]
}

/// Applies the pieces `ps[k..]` in order.
pub open spec fn apply_pieces(c: ConfigModel, ps: Seq<Seq<u8>>, k: int) -> ConfigModel
    decreases ps.len() - k,
{
    if k >= ps.len() {
        c
    } else {
        apply_pieces(apply_piece(c, ps[k]), ps, k + 1)
    }
}

/// The concatenation of `ps[k..]`.
pub open spec fn join_from(ps: Seq<Seq<u8>>, k: int) -> Seq<u8>
    decreases ps.len() - k,
{
    if k >= ps.len() {
        seq![]
    } else {
        ps[k] + join_from(ps, k + 1)
    }
}

proof fn lemma_decode_pieces(c: ConfigModel, ps: Seq<Seq<u8>>, k: int)
    requires
        0 <= k <= ps.len(),
        forall|j: int| k <= j < ps.len() ==> is_piece(#[trigger] ps[j]),
    ensures
        decode_entries(c, join_from(ps, k)) == apply_pieces(c, ps, k),
    decreases ps.len() - k,
{
    if k < ps.len() {
        lemma_decode_piece(c, ps[k], join_from(ps, k + 1));
        lemma_decode_pieces(apply_piece(c, ps[k]), ps, k + 1);
    }
}

/// The name's UTF-8 bytes end with a zero byte, which decoding trims.
pub open spec fn utf8_ends_with_nul(n: Seq<char>) -> bool {
    encode_utf8(n).len() > 0 && encode_utf8(n).last() == 0
}

/// The name entry's value decodes back to the name when its UTF-8 bytes do
/// not end with a zero byte.
proof fn lemma_name_round_trip(n: Seq<char>)
    requires
        encode_utf8(n).len() > 0,
        !utf8_ends_with_nul(n),
    ensures
        name_text(encode_utf8(n) + seq![0u8]) == n,
{
    let b = encode_utf8(n);
    let v = b + seq![0u8];
    assert(v.drop_last() =~= b);
    assert(strip_trailing_nul(v) == strip_trailing_nul(b));
    assert(strip_trailing_nul(b) == b);
}

/// Four hexadecimal digits, read as a number and written back as two bytes
/// of upper-case hexadecimal, are the same digits in upper case.
pub proof fn lemma_hex4_upper(s: Seq<char>)
    requires
        hex4_value(s) is Some,
    ensures
        hex_upper(be16_bytes(hex4_value(s)->0)) == upper_hex_text(s),
{
    assert(hex_code_value(s[0] as u32) is Some);
    assert(hex_code_value(s[1] as u32) is Some);
    assert(hex_code_value(s[2] as u32) is Some);
    assert(hex_code_value(s[3] as u32) is Some);
    let d0 = hex_char_value(s[0]);
    let d1 = hex_char_value(s[1]);
    let d2 = hex_char_value(s[2]);
    let d3 = hex_char_value(s[3]);
    let v = hex4_value(s)->0;
    assert(0 <= d0 < 16 && 0 <= d1 < 16 && 0 <= d2 < 16 && 0 <= d3 < 16);
    assert(v as int == d0 * 4096 + d1 * 256 + d2 * 16 + d3);
    let hi = d0 * 16 + d1;
    let lo = d2 * 16 + d3;
    assert(v as int / 256 == hi && v as int % 256 == lo) by (nonlinear_arith)
        requires
            v as int == hi * 256 + lo,
            0 <= lo < 256,
            0 <= hi,
    ;
    assert(hi / 16 == d0 && hi % 16 == d1) by (nonlinear_arith)
        requires
            hi == d0 * 16 + d1,
            0 <= d1 < 16,
            0 <= d0,
    ;
    assert(lo / 16 == d2 && lo % 16 == d3) by (nonlinear_arith)
        requires
            lo == d2 * 16 + d3,
            0 <= d3 < 16,
            0 <= d2,
    ;
    let b = be16_bytes(v);
    assert(b[0] as int == hi && b[1] as int == lo);
    assert(b.drop_first().drop_first() =~= Seq::<u8>::empty());
    assert(hex_upper(b) =~= upper_hex_text(s)) by {
        reveal_with_fuel(hex_upper, 3);
    }
}

proof fn lemma_join_eight(ps: Seq<Seq<u8>>)
    requires
        ps.len() == 8,
    ensures
        join_from(ps, 0) == ps[0] + ps[1] + ps[2] + ps[3] + ps[4] + ps[5] + ps[6] + ps[7],
{
    assert(join_from(ps, 8) == Seq::<u8>::empty());
    assert(join_from(ps, 7) == ps[7] + join_from(ps, 8));
    assert(join_from(ps, 6) == ps[6] + join_from(ps, 7));
    assert(join_from(ps, 5) == ps[5] + join_from(ps, 6));
    assert(join_from(ps, 4) == ps[4] + join_from(ps, 5));
    assert(join_from(ps, 3) == ps[3] + join_from(ps, 4));
    assert(join_from(ps, 2) == ps[2] + join_from(ps, 3));
    assert(join_from(ps, 1) == ps[1] + join_from(ps, 2));
    assert(join_from(ps, 0) == ps[0] + join_from(ps, 1));
    assert(join_from(ps, 0) =~= ps[0] + ps[1] + ps[2] + ps[3] + ps[4] + ps[5] + ps[6] + ps[7]);
}

proof fn lemma_vidpid_piece(u: AppConfigInput)
    requires
        vidpid_entry(u) is Ok,
    ensures
        is_piece(vidpid_entry(u)->Ok_0),
{
}

proof fn lemma_name_piece(u: AppConfigInput)
    requires
        name_entry(u) is Ok,
    ensures
        is_piece(name_entry(u)->Ok_0),
{
}

proof fn lemma_pieces_join(u: AppConfigInput)
    requires
        encode_spec(u) is Ok,
    ensures
        encode_spec(u)->Ok_0 == join_from(update_pieces(u), 0),
        forall|j: int|
            0 <= j < update_pieces(u).len() ==> is_piece(#[trigger] update_pieces(u)[j]),
{
    let ps = update_pieces(u);
    lemma_join_eight(ps);
    lemma_vidpid_piece(u);
    lemma_name_piece(u);
    assert(is_piece(ps[1]) && is_piece(ps[2]) && is_piece(ps[3]) && is_piece(ps[6]));
    assert(is_piece(ps[4]) && is_piece(ps[5]));
}

proof fn lemma_step_vidpid(c: ConfigModel, u: AppConfigInput)
    requires
        vidpid_entry(u) is Ok,
    ensures
        apply_piece(c, vidpid_entry(u)->Ok_0) == (match (u.vid, u.pid) {
            (Some(v), Some(p)) => ConfigModel {
                vid: upper_hex_text(v@),
                pid: upper_hex_text(p@),
                ..c
            },
            _ => c,
        }),
{
    reveal(apply_piece);
    if let (Some(v), Some(p)) = (u.vid, u.pid) {
        let e = vidpid_entry(u)->Ok_0;
        let a = hex4_value(v@)->0;
        let b = hex4_value(p@)->0;
        assert(e.subrange(2, 6).subrange(0, 2) =~= be16_bytes(a));
        assert(e.subrange(2, 6).subrange(2, 4) =~= be16_bytes(b));
        lemma_hex4_upper(v@);
        lemma_hex4_upper(p@);
    }
}

proof fn lemma_step_bytes(c: ConfigModel, u: AppConfigInput)
    ensures
        apply_piece(c, byte_entry(TAG_LED_GPIO, u.led_gpio)) == (match u.led_gpio {
            Some(x) => ConfigModel { led_gpio: x, ..c },
            None => c,
        }),
        apply_piece(c, byte_entry(TAG_LED_BRIGHTNESS, u.led_brightness)) == (
        match u.led_brightness {
            Some(x) => ConfigModel { led_brightness: x, ..c },
            None => c,
        }),
        apply_piece(c, byte_entry(TAG_UP_BTN, u.touch_timeout)) == (match u.touch_timeout {
            Some(x) => ConfigModel { touch_timeout: x, ..c },
            None => c,
        }),
        apply_piece(c, byte_entry(TAG_LED_DRIVER, u.led_driver)) == (match u.led_driver {
            Some(x) => ConfigModel { led_driver: Some(x), ..c },
            None => c,
        }),
{
    reveal(apply_piece);
}

proof fn lemma_step_options(c: ConfigModel, u: AppConfigInput)
    ensures
        apply_piece(c, options_entry(u)) == (match (
            u.led_dimmable,
            u.power_cycle_on_reset,
            u.led_steady,
        ) {
            (Some(d), Some(cy), Some(st)) => ConfigModel {
                led_dimmable: d,
                power_cycle_on_reset: cy,
                led_steady: st,
                ..c
            },
            _ => c,
        }),
{
    reveal(apply_piece);
    if let (Some(d), Some(cy), Some(st)) = (u.led_dimmable, u.power_cycle_on_reset, u.led_steady) {
        lemma_be16_round_trip(options_word(d, cy, st));
        lemma_options_round_trip(d, cy, st);
    }
}

proof fn lemma_step_curves(c: ConfigModel, u: AppConfigInput)
    ensures
        apply_piece(c, curves_entry(u)) == (match u.enable_secp256k1 {
            Some(e) => ConfigModel { enable_secp256k1: e, ..c },
            None => c,
        }),
{
    reveal(apply_piece);
    if let Some(e) = u.enable_secp256k1 {
        lemma_be32_round_trip(curves_word(e));
        lemma_curves_round_trip(e);
    }
}

proof fn lemma_step_name(c: ConfigModel, u: AppConfigInput)
    requires
        name_entry(u) is Ok,
    ensures
        apply_piece(c, name_entry(u)->Ok_0) == (match u.product_name {
            Some(n) => if n@.len() > 0 {
                ConfigModel { product_name: name_text(encode_utf8(n@) + seq![0u8]), ..c }
            } else {
                c
            },
            None => c,
        }),
{
    reveal(apply_piece);
    if let Some(n) = u.product_name {
        if n@.len() > 0 {
            let e = name_entry(u)->Ok_0;
            assert(e.subrange(2, e.len() as int) =~= encode_utf8(n@) + seq![0u8]);
        }
    }
}

/// Decoding what an update encodes to restores every field the update sets.
/// VID and PID, when both are given, read back as their four digits in upper
/// case. The three option flags read back when all three are given (a lone
/// flag is not written). The product name reads back unless its UTF-8 bytes
/// end with a zero byte, which decoding trims.
pub proof fn lemma_update_round_trip(u: AppConfigInput)
    requires
        encode_spec(u) is Ok,
    ensures
        ({
            let c = decode_spec(encode_spec(u)->Ok_0);
            &&& (u.vid, u.pid) matches (Some(v), Some(p)) ==> c.vid == upper_hex_text(v@) && c.pid
                == upper_hex_text(p@)
            &&& u.product_name matches Some(n) ==> (!utf8_ends_with_nul(n@) ==> c.product_name
                == n@)
            &&& u.led_gpio matches Some(x) ==> c.led_gpio == x
            &&& u.led_brightness matches Some(x) ==> c.led_brightness == x
            &&& u.touch_timeout matches Some(x) ==> c.touch_timeout == x
            &&& u.led_driver matches Some(x) ==> c.led_driver == Some(x)
            &&& (u.led_dimmable, u.power_cycle_on_reset, u.led_steady) matches (
                Some(d),
                Some(cy),
                Some(st),
            ) ==> c.led_dimmable == d && c.power_cycle_on_reset == cy && c.led_steady == st
            &&& u.enable_secp256k1 matches Some(x) ==> c.enable_secp256k1 == x
        }),
{
    let ps = update_pieces(u);
    lemma_pieces_join(u);
    lemma_decode_pieces(empty_config(), ps, 0);
    let c0 = empty_config();
    let c1 = apply_piece(c0, ps[0]);
    let c2 = apply_piece(c1, ps[1]);
    let c3 = apply_piece(c2, ps[2]);
    let c4 = apply_piece(c3, ps[3]);
    let c5 = apply_piece(c4, ps[4]);
    let c6 = apply_piece(c5, ps[5]);
    let c7 = apply_piece(c6, ps[6]);
    let c8 = apply_piece(c7, ps[7]);
    assert(apply_pieces(c0, ps, 0) == c8) by {
        reveal_with_fuel(apply_pieces, 9);
    }
    lemma_step_vidpid(c0, u);
    lemma_step_bytes(c1, u);
    lemma_step_bytes(c2, u);
    lemma_step_bytes(c3, u);
    lemma_step_options(c4, u);
    lemma_step_curves(c5, u);
    lemma_step_bytes(c6, u);
    lemma_step_name(c7, u);
    if let Some(n) = u.product_name {
        if n@.len() > 0 && !utf8_ends_with_nul(n@) {
            assert(encode_utf8(n@).len() > 0) by {
                assert(encode_utf8(n@) == encode_scalar(n@[0] as u32) + encode_utf8(
                    n@.drop_first(),
                ));
            }
            lemma_name_round_trip(n@);
        }
    }
}

/// What a status read reports as configuration, when the configuration
/// read answers with the entries an update encoded to and `90 00`, is what
/// decoding those entries gives (see `lemma_update_round_trip`).
pub proof fn lemma_written_config_reads_back(u: AppConfigInput)
    requires
        encode_spec(u) is Ok,
    ensures
        has_success_trailer(encode_spec(u)->Ok_0 + seq![0x90u8, 0x00u8]),
        body(encode_spec(u)->Ok_0 + seq![0x90u8, 0x00u8]) == encode_spec(u)->Ok_0,
{
    assert(body(encode_spec(u)->Ok_0 + seq![0x90u8, 0x00u8]) =~= encode_spec(u)->Ok_0);
}

/// An update that sets nothing encodes to no bytes, so the write plan asks
/// for no session and nothing is transmitted.
pub proof fn lemma_empty_update_writes_nothing(u: AppConfigInput)
    requires
        u.vid is None,
        u.pid is None,
        u.product_name is None,
        u.led_gpio is None,
        u.led_brightness is None,
        u.touch_timeout is None,
        u.led_driver is None,
        u.led_dimmable is None,
        u.power_cycle_on_reset is None,
        u.led_steady is None,
        u.enable_secp256k1 is None,
    ensures
        encode_spec(u) == Ok::<Seq<u8>, InputError>(Seq::<u8>::empty()),
{
    assert(encode_spec(u)->Ok_0 =~= Seq::<u8>::empty());
}

/// A response to the select, flash-information or configuration read that
/// does not end with `90 00` ends the status read with a device error that
/// carries the response's actual trailer bytes.
pub proof fn lemma_refused_read_reports_trailer(
    state: StatusRead,
    r: Vec<u8>,
    step: ReadStep,
)
    requires
        read_step_spec(state, Ok(r), step),
        !has_success_trailer(r@),
        !(state is AwaitSecureBoot),
    ensures
        step matches ReadStep::Finished(Err(AppError::Device(d))) && d.bytes@ == trailer(r@),
{
}

} // verus!
