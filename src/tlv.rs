//! The configuration TLV codec. An entry is `tag(1) len(1) value(len)`;
//! multi-byte values are big-endian.
use crate::types::{empty_config, AppConfig, ConfigModel};
use crate::wire::{
    be16, be32, encode_hex_upper, hex_upper, read_be_u16, read_be_u32, text_from_utf8,
};
use vstd::prelude::*;
use vstd::utf8::*;

verus! {

pub const TAG_VIDPID: u8 = 0x00;

pub const TAG_LED_GPIO: u8 = 0x04;

pub const TAG_LED_BRIGHTNESS: u8 = 0x05;

pub const TAG_OPTS: u8 = 0x06;

/// Touch (user-presence button) timeout in seconds.
pub const TAG_UP_BTN: u8 = 0x08;

pub const TAG_USB_PRODUCT: u8 = 0x09;

pub const TAG_CURVES: u8 = 0x0A;

pub const TAG_LED_DRIVER: u8 = 0x0C;

/// Option bit: the LED can be dimmed.
pub const OPT_LED_DIMMABLE: u16 = 0x02;

/// Option bit: power cycling on reset is DISABLED when this bit is set. The
/// configuration flag `power_cycle_on_reset` is its negation, and the
/// firmware depends on this polarity.
pub const OPT_DISABLE_POWER_RESET: u16 = 0x04;

/// Option bit: the LED stays steady instead of blinking.
pub const OPT_LED_STEADY: u16 = 0x08;

/// Curve bit: secp256k1 is enabled.
pub const CURVE_SECP256K1: u32 = 0x08;

/// Largest value of the product-name entry, terminator included.
pub const PRODUCT_NAME_MAX: usize = 32;

/// The three option flags held by an options word: dimmable, power cycle on
/// reset (the disable bit is clear), steady.
pub open spec fn options_flags(w: u16) -> (bool, bool, bool) {
    ((w & OPT_LED_DIMMABLE) != 0, (w & OPT_DISABLE_POWER_RESET) == 0, (w & OPT_LED_STEADY) != 0)
}

/// `b` without its trailing zero bytes.
pub open spec fn strip_trailing_nul(b: Seq<u8>) -> Seq<u8>
    decreases b.len(),
{
    if b.len() > 0 && b.last() == 0 {
        strip_trailing_nul(b.drop_last())
    } else {
        b
    }
}

/// The product name held by an entry value: the text of the value without
/// its trailing NUL bytes, or empty text when that is not valid UTF-8.
pub open spec fn name_text(v: Seq<u8>) -> Seq<char> {
    let t = strip_trailing_nul(v);
    if valid_utf8(t) {
        decode_utf8(t)
    } else {
        seq![]
    }
}

/// What one entry does to the configuration. Values of the wrong size and
/// unknown tags leave it unchanged.
pub open spec fn apply_entry(c: ConfigModel, tag: u8, v: Seq<u8>) -> ConfigModel {
    if tag == TAG_VIDPID {
        if v.len() == 4 {
            ConfigModel { vid: hex_upper(v.subrange(0, 2)), pid: hex_upper(v.subrange(2, 4)), ..c }
        } else {
            c
        }
    } else if tag == TAG_LED_GPIO {
        if v.len() > 0 { ConfigModel { led_gpio: v[0], ..c } } else { c }
    } else if tag == TAG_LED_BRIGHTNESS {
        if v.len() > 0 { ConfigModel { led_brightness: v[0], ..c } } else { c }
    } else if tag == TAG_UP_BTN {
        if v.len() > 0 { ConfigModel { touch_timeout: v[0], ..c } } else { c }
    } else if tag == TAG_USB_PRODUCT {
        ConfigModel { product_name: name_text(v), ..c }
    } else if tag == TAG_OPTS {
        if v.len() >= 2 {
            let f = options_flags(be16(v[0], v[1]) as u16);
            ConfigModel { led_dimmable: f.0, power_cycle_on_reset: f.1, led_steady: f.2, ..c }
        } else {
            c
        }
    } else if tag == TAG_CURVES {
        if v.len() >= 4 {
            let w = be32(v[0], v[1], v[2], v[3]) as u32;
            ConfigModel { enable_secp256k1: (w & CURVE_SECP256K1) != 0, ..c }
        } else {
            c
        }
    } else if tag == TAG_LED_DRIVER {
        if v.len() > 0 { ConfigModel { led_driver: Some(v[0]), ..c } } else { c }
    } else {
        c
    }
}

/// Scans the entries of `d` in order, starting from `c`. The scan stops at
/// the first entry whose header or value runs past the end.
pub open spec fn decode_entries(c: ConfigModel, d: Seq<u8>) -> ConfigModel
    decreases d.len(),
{
    if d.len() < 2 {
        c
    } else if 2 + d[1] as int > d.len() {
        c
    } else {
        decode_entries(
            apply_entry(c, d[0], d.subrange(2, 2 + d[1] as int)),
            d.subrange(2 + d[1] as int, d.len() as int),
        )
    }
}

/// The configuration a TLV blob describes.
pub open spec fn decode_spec(d: Seq<u8>) -> ConfigModel {
    decode_entries(empty_config(), d)
}

/// The flags of an options word: (dimmable, power cycle on reset, steady).
pub fn decode_options(w: u16) -> (r: (bool, bool, bool))
    ensures
        r == options_flags(w),
{
    ((w & OPT_LED_DIMMABLE) != 0, (w & OPT_DISABLE_POWER_RESET) == 0, (w & OPT_LED_STEADY) != 0)
}

/// The product name held by an entry value (see `name_text`).
pub fn decode_name(v: &[u8]) -> (r: String)
    ensures
        r@ == name_text(v@),
{
    let n = v.len();
    let mut e: usize = n;
    assert(v@.subrange(0, n as int) =~= v@);
    while e > 0 && v[e - 1] == 0
        invariant
            e <= n,
            n == v@.len(),
            strip_trailing_nul(v@.subrange(0, e as int)) == strip_trailing_nul(v@),
        decreases e,
    {
        assert(v@.subrange(0, e as int).drop_last() =~= v@.subrange(0, e - 1));
        e -= 1;
    }
    let t = &v[0..e];
    assert(t@ =~= v@.subrange(0, e as int));
    if e == 0 {
        assert(t@ =~= Seq::<u8>::empty());
    }
    assert(t@ == strip_trailing_nul(v@));
    match text_from_utf8(t) {
        Some(text) => text,
        None => String::new(),
    }
}

/// Applies one entry to the configuration.
pub fn apply_entry_to(cfg: &mut AppConfig, tag: u8, v: &[u8])
    ensures
        final(cfg)@ == apply_entry(old(cfg)@, tag, v@),
{
    if tag == TAG_VIDPID {
        if v.len() == 4 {
            cfg.vid = encode_hex_upper(&v[0..2]);
            cfg.pid = encode_hex_upper(&v[2..4]);
        }
    } else if tag == TAG_LED_GPIO {
        if v.len() > 0 {
            cfg.led_gpio = v[0];
        }
    } else if tag == TAG_LED_BRIGHTNESS {
        if v.len() > 0 {
            cfg.led_brightness = v[0];
        }
    } else if tag == TAG_UP_BTN {
        if v.len() > 0 {
            cfg.touch_timeout = v[0];
        }
    } else if tag == TAG_USB_PRODUCT {
        cfg.product_name = decode_name(v);
    } else if tag == TAG_OPTS {
        if v.len() >= 2 {
            let f = decode_options(read_be_u16(v));
            cfg.led_dimmable = f.0;
            cfg.power_cycle_on_reset = f.1;
            cfg.led_steady = f.2;
        }
    } else if tag == TAG_CURVES {
        if v.len() >= 4 {
            let w = read_be_u32(v);
            cfg.enable_secp256k1 = (w & CURVE_SECP256K1) != 0;
        }
    } else if tag == TAG_LED_DRIVER {
        if v.len() > 0 {
            cfg.led_driver = Some(v[0]);
        }
    }
}

/// Decodes a configuration blob (status trailer already removed). Unknown
/// tags are skipped; a truncated entry ends the scan, keeping what the
/// entries before it set.
pub fn decode_config(d: &[u8]) -> (cfg: AppConfig)
    ensures
        cfg@ == decode_spec(d@),
{
    let mut cfg = AppConfig::default();
    let n = d.len();
    let mut i: usize = 0;
    assert(d@.subrange(0, n as int) =~= d@);
    while i < n
        invariant
            i <= n,
            n == d@.len(),
            decode_entries(cfg@, d@.subrange(i as int, n as int)) == decode_spec(d@),
        decreases n - i,
    {
        let ghost rest = d@.subrange(i as int, n as int);
        if n - i < 2 {
            return cfg;
        }
        let tag = d[i];
        let len = d[i + 1] as usize;
        if len > n - i - 2 {
            return cfg;
        }
        let v = &d[i + 2..i + 2 + len];
        assert(v@ =~= rest.subrange(2, 2 + rest[1] as int));
        assert(rest.subrange(2 + rest[1] as int, rest.len() as int) =~= d@.subrange(
            (i + 2 + len) as int,
            n as int,
        ));
        apply_entry_to(&mut cfg, tag, v);
        i = i + 2 + len;
    }
    assert(d@.subrange(i as int, n as int).len() == 0);
    cfg
}

} // verus!
