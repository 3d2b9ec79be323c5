//! The configuration form: what the user entered, compared with the
//! configuration read from the device, gives the update to write.
use crate::types::{AppConfig, AppConfigInput};
use crate::wire::{decimal, decimal_text};
use vstd::prelude::*;
use vstd::utf8::*;

verus! {

/// What the configuration form holds when the user applies it.
pub struct ConfigForm {
    pub vid: String,
    pub pid: String,
    pub product_name: String,
    /// The LED GPIO field as typed.
    pub led_gpio: String,
    /// The touch-timeout field as typed.
    pub touch_timeout: String,
    /// The selected LED driver, if one is selected.
    pub led_driver: Option<u8>,
    pub led_brightness: u8,
    pub led_dimmable: bool,
    pub led_steady: bool,
    pub power_cycle: bool,
    pub enable_secp256k1: bool,
}

impl ConfigForm {
    /// The form as first shown: the device's configuration where one was
    /// read, else defaults (VID `CAFE`, PID `4242`, name `My Key`, GPIO 25,
    /// brightness 8, timeout 10 s, dimmable and secp256k1 on, steady and
    /// power cycle off). The LED driver starts at the device's, else the
    /// first.
    pub fn initial(config: Option<&AppConfig>) -> (f: ConfigForm)
        ensures
            match config {
                Some(c) => {
                    &&& f.vid@ == c.vid@
                    &&& f.pid@ == c.pid@
                    &&& f.product_name@ == c.product_name@
                    &&& f.led_gpio@ == decimal(c.led_gpio as nat)
                    &&& f.touch_timeout@ == decimal(c.touch_timeout as nat)
                    &&& f.led_driver == Some(
                        match c.led_driver {
                            Some(d) => d,
                            None => 0u8,
                        },
                    )
                    &&& f.led_brightness == c.led_brightness
                    &&& f.led_dimmable == c.led_dimmable
                    &&& f.led_steady == c.led_steady
                    &&& f.power_cycle == c.power_cycle_on_reset
                    &&& f.enable_secp256k1 == c.enable_secp256k1
                },
                None => {
                    &&& f.vid@ == "CAFE"@
                    &&& f.pid@ == "4242"@
                    &&& f.product_name@ == "My Key"@
                    &&& f.led_gpio@ == decimal(25)
                    &&& f.touch_timeout@ == decimal(10)
                    &&& f.led_driver == Some(0u8)
                    &&& f.led_brightness == 8
                    &&& f.led_dimmable
                    &&& !f.led_steady
                    &&& !f.power_cycle
                    &&& f.enable_secp256k1
                },
            },
    {
        match config {
            Some(c) => ConfigForm {
                vid: c.vid.clone(),
                pid: c.pid.clone(),
                product_name: c.product_name.clone(),
                led_gpio: decimal_text(c.led_gpio),
                touch_timeout: decimal_text(c.touch_timeout),
                led_driver: Some(
                    match c.led_driver {
                        Some(d) => d,
                        None => 0,
                    },
                ),
                led_brightness: c.led_brightness,
                led_dimmable: c.led_dimmable,
                led_steady: c.led_steady,
                power_cycle: c.power_cycle_on_reset,
                enable_secp256k1: c.enable_secp256k1,
            },
            None => ConfigForm {
                vid: "CAFE".to_owned(),
                pid: "4242".to_owned(),
                product_name: "My Key".to_owned(),
                led_gpio: decimal_text(25),
                touch_timeout: decimal_text(10),
                led_driver: Some(0),
                led_brightness: 8,
                led_dimmable: true,
                led_steady: false,
                power_cycle: false,
                enable_secp256k1: true,
            },
        }
    }
}

/// The byte `+`, which may lead a number.
pub const PLUS_SIGN: u8 = 0x2B;

/// The value of a string of decimal digits, if each is one.
pub open spec fn dec_digits_value(d: Seq<u8>) -> Option<nat>
    decreases d.len(),
{
    if d.len() == 0 {
        Some(0)
    } else if 0x30 <= d.last() <= 0x39 {
        match dec_digits_value(d.drop_last()) {
            Some(a) => Some(a * 10 + (d.last() - 0x30) as nat),
            None => None,
        }
    } else {
        None
    }
}

/// A byte written in decimal: an optional `+`, then at least one digit; the
/// value must be at most 255.
pub open spec fn parse_dec_u8_spec(b: Seq<u8>) -> Option<u8> {
    let d = if b.len() > 0 && b[0] == PLUS_SIGN { b.drop_first() } else { b };
    if d.len() == 0 {
        None
    } else {
        match dec_digits_value(d) {
            Some(v) => if v <= 255 { Some(v as u8) } else { None },
            None => None,
        }
    }
}

proof fn lemma_dec_prefix(d: Seq<u8>, k: int)
    requires
        0 <= k <= d.len(),
    ensures
        dec_digits_value(d.take(k)) is None ==> dec_digits_value(d) is None,
        dec_digits_value(d.take(k)) is Some && dec_digits_value(d) is Some ==> dec_digits_value(
            d.take(k),
        )->0 <= dec_digits_value(d)->0,
    decreases d.len() - k,
{
    if k == d.len() {
        assert(d.take(k) =~= d);
    } else {
        lemma_dec_prefix(d.drop_last(), k);
        assert(d.drop_last().take(k) =~= d.take(k));
    }
}

/// Parses a byte written in decimal (see `parse_dec_u8_spec`).
pub fn parse_dec_u8(b: &[u8]) -> (r: Option<u8>)
    ensures
        r == parse_dec_u8_spec(b@),
{
    let n = b.len();
    let start: usize = if n > 0 && b[0] == PLUS_SIGN { 1 } else { 0 };
    let ghost d = b@.subrange(start as int, n as int);
    assert(start == 1 ==> d =~= b@.drop_first());
    assert(start == 0 ==> d =~= b@);
    if start == n {
        return None;
    }
    let mut acc: u32 = 0;
    let mut i: usize = start;
    assert(d.take(0) =~= Seq::<u8>::empty());
    while i < n
        invariant
            start <= i <= n,
            n == b@.len(),
            d == b@.subrange(start as int, n as int),
            d == (if b@.len() > 0 && b@[0] == PLUS_SIGN { b@.drop_first() } else { b@ }),
            d.len() > 0,
            acc <= 255,
            dec_digits_value(d.take(i - start)) == Some(acc as nat),
        decreases n - i,
    {
        let ghost k = i - start + 1;
        assert(d.take(k).drop_last() =~= d.take(k - 1));
        assert(d.take(k).last() == b@[i as int]);
        let c = b[i];
        if c < 0x30 || c > 0x39 {
            assert(dec_digits_value(d.take(k)) is None);
            proof {
                lemma_dec_prefix(d, k);
            }
            return None;
        }
        let next = acc * 10 + (c - 0x30) as u32;
        if next > 255 {
            assert(dec_digits_value(d.take(k)) == Some(next as nat));
            proof {
                lemma_dec_prefix(d, k);
            }
            return None;
        }
        acc = next;
        i += 1;
    }
    assert(d.take(n - start) =~= d);
    Some(acc as u8)
}

/// `c` records `new` exactly when it differs from `old`.
pub open spec fn text_change(c: Option<String>, new: Seq<char>, old: Seq<char>) -> bool {
    if new != old {
        c matches Some(s) && s@ == new
    } else {
        c is None
    }
}

/// `new` where it differs from `old`.
pub open spec fn value_change<T>(new: T, old: T) -> Option<T> {
    if new != old {
        Some(new)
    } else {
        None
    }
}

/// The update that takes the device from `current` to what the form holds:
/// each field the form changes, and no other. A numeric field whose text is
/// not a byte in decimal is left out, as is the LED driver when none is
/// selected.
pub fn config_changes(current: &AppConfig, form: &ConfigForm) -> (u: AppConfigInput)
    ensures
        text_change(u.vid, form.vid@, current.vid@),
        text_change(u.pid, form.pid@, current.pid@),
        text_change(u.product_name, form.product_name@, current.product_name@),
        u.led_gpio == (match parse_dec_u8_spec(encode_utf8(form.led_gpio@)) {
            Some(v) => value_change(v, current.led_gpio),
            None => None,
        }),
        u.touch_timeout == (match parse_dec_u8_spec(encode_utf8(form.touch_timeout@)) {
            Some(v) => value_change(v, current.touch_timeout),
            None => None,
        }),
        u.led_driver == (match form.led_driver {
            Some(v) => if Some(v) != current.led_driver {
                Some(v)
            } else {
                None
            },
            None => None,
        }),
        u.led_brightness == value_change(form.led_brightness, current.led_brightness),
        u.led_dimmable == value_change(form.led_dimmable, current.led_dimmable),
        u.led_steady == value_change(form.led_steady, current.led_steady),
        u.power_cycle_on_reset == value_change(form.power_cycle, current.power_cycle_on_reset),
        u.enable_secp256k1 == value_change(form.enable_secp256k1, current.enable_secp256k1),
{
    let vid = if form.vid != current.vid { Some(form.vid.clone()) } else { None };
    let pid = if form.pid != current.pid { Some(form.pid.clone()) } else { None };
    let product_name = if form.product_name != current.product_name {
        Some(form.product_name.clone())
    } else {
        None
    };
    let led_gpio = match parse_dec_u8(form.led_gpio.as_str().as_bytes()) {
        Some(v) => if v != current.led_gpio { Some(v) } else { None },
        None => None,
    };
    let touch_timeout = match parse_dec_u8(form.touch_timeout.as_str().as_bytes()) {
        Some(v) => if v != current.touch_timeout { Some(v) } else { None },
        None => None,
    };
    let led_driver = match form.led_driver {
        Some(v) => match current.led_driver {
            Some(old) => if v != old { Some(v) } else { None },
            None => Some(v),
        },
        None => None,
    };
    AppConfigInput {
        vid,
        pid,
        product_name,
        led_gpio,
        led_brightness: if form.led_brightness != current.led_brightness {
            Some(form.led_brightness)
        } else {
            None
        },
        touch_timeout,
        led_driver,
        led_dimmable: if form.led_dimmable != current.led_dimmable {
            Some(form.led_dimmable)
        } else {
            None
        },
        power_cycle_on_reset: if form.power_cycle != current.power_cycle_on_reset {
            Some(form.power_cycle)
        } else {
            None
        },
        led_steady: if form.led_steady != current.led_steady {
            Some(form.led_steady)
        } else {
            None
        },
        enable_secp256k1: if form.enable_secp256k1 != current.enable_secp256k1 {
            Some(form.enable_secp256k1)
        } else {
            None
        },
    }
}

} // verus!
