use picoforge::fido_options::{option_from_name, FidoOption, FidoOptions};
use picoforge::form::{config_changes, parse_dec_u8, ConfigForm};
use picoforge::session::plan_config_write;
use picoforge::tlv::decode_config;
use picoforge::types::AppConfig;
use picoforge::ui_state::GlobalDeviceState;

fn device_config() -> AppConfig {
    let mut c = decode_config(&[0x00, 0x04, 0x12, 0x09, 0x48, 0x23, 0x04, 0x01, 0x19]);
    c.product_name = "Pico".to_string();
    c.touch_timeout = 15;
    c.led_driver = Some(1);
    c
}

#[test]
fn decimal_parsing_follows_u8_rules() {
    assert_eq!(parse_dec_u8(b"25"), Some(25));
    assert_eq!(parse_dec_u8(b"+7"), Some(7));
    assert_eq!(parse_dec_u8(b"0255"), Some(255));
    assert_eq!(parse_dec_u8(b"256"), None);
    assert_eq!(parse_dec_u8(b""), None);
    assert_eq!(parse_dec_u8(b"+"), None);
    assert_eq!(parse_dec_u8(b"-1"), None);
    assert_eq!(parse_dec_u8(b"1a"), None);
}

#[test]
fn initial_form_without_device_uses_defaults() {
    let f = ConfigForm::initial(None);
    assert_eq!(f.vid, "CAFE");
    assert_eq!(f.pid, "4242");
    assert_eq!(f.product_name, "My Key");
    assert_eq!(f.led_gpio, "25");
    assert_eq!(f.touch_timeout, "10");
    assert_eq!(f.led_driver, Some(0));
    assert_eq!(f.led_brightness, 8);
    assert!(f.led_dimmable);
    assert!(!f.led_steady);
    assert!(!f.power_cycle);
    assert!(f.enable_secp256k1);
}

#[test]
fn unchanged_form_gives_no_update() {
    let c = device_config();
    let f = ConfigForm::initial(Some(&c));
    assert_eq!(f.led_gpio, "25");
    assert_eq!(f.touch_timeout, "15");
    let u = config_changes(&c, &f);
    assert_eq!(plan_config_write(&u), Ok(None));
}

#[test]
fn changed_fields_are_the_only_ones_written() {
    let c = device_config();
    let mut f = ConfigForm::initial(Some(&c));
    f.led_gpio = "3".to_string();
    f.touch_timeout = "not a number".to_string();
    f.enable_secp256k1 = true;
    f.product_name = "New".to_string();
    let u = config_changes(&c, &f);
    assert_eq!(u.led_gpio, Some(3));
    assert_eq!(u.touch_timeout, None);
    assert_eq!(u.enable_secp256k1, Some(true));
    assert_eq!(u.product_name, Some("New".to_string()));
    assert_eq!(u.vid, None);
    assert_eq!(u.led_driver, None);
    assert_eq!(u.led_dimmable, None);
}

#[test]
fn recording_a_failed_read_clears_the_state() {
    let mut s = GlobalDeviceState::new();
    assert!(!s.record_status(Err("Device Error: Failed to read flash".to_string())));
    assert!(s.device_status.is_none());
    assert!(s.fido_info.is_none());
    assert_eq!(s.error, Some("Device Error: Failed to read flash".to_string()));
    s.record_fido_info(Err("no FIDO device".to_string()));
    assert!(s.fido_info.is_none());
    assert_eq!(s.error, Some("Device Error: Failed to read flash".to_string()));
}

#[test]
fn fido_options_keep_known_names_last_value_wins() {
    let pairs = vec![
        ("rk".to_string(), true),
        ("clientPin".to_string(), false),
        ("somethingNew".to_string(), true),
        ("clientPin".to_string(), true),
        ("setMinPINLength".to_string(), true),
    ];
    let o = FidoOptions::from_pairs(&pairs);
    assert_eq!(o.rk, Some(true));
    assert_eq!(o.client_pin, Some(true));
    assert_eq!(o.set_min_pin_length, Some(true));
    assert_eq!(o.uv, None);
    assert_eq!(o.plat, None);
    assert_eq!(option_from_name(&"alwaysUv".to_string()), Some(FidoOption::AlwaysUv));
    assert_eq!(option_from_name(&"RK".to_string()), None);
}
