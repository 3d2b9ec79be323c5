use picoforge::session::plan_config_write;
use picoforge::tlv::{decode_config, decode_name, decode_options, OPT_DISABLE_POWER_RESET};
use picoforge::types::{AppConfigInput, AppError, InputError};
use picoforge::update::{encode_options, encode_update, parse_hex4};

fn empty_update() -> AppConfigInput {
    AppConfigInput {
        vid: None,
        pid: None,
        product_name: None,
        led_gpio: None,
        led_brightness: None,
        touch_timeout: None,
        led_driver: None,
        led_dimmable: None,
        power_cycle_on_reset: None,
        led_steady: None,
        enable_secp256k1: None,
    }
}

#[test]
fn decode_vidpid_entry() {
    let cfg = decode_config(&[0x00, 0x04, 0x12, 0x34, 0x56, 0x78]);
    assert_eq!(cfg.vid, "1234");
    assert_eq!(cfg.pid, "5678");
    assert_eq!(cfg.led_gpio, 0);
    assert_eq!(cfg.led_driver, None);
}

#[test]
fn decode_vidpid_wrong_length_is_ignored() {
    let cfg = decode_config(&[0x00, 0x03, 0x12, 0x34, 0x56, 0x04, 0x01, 0x09]);
    assert_eq!(cfg.vid, "");
    assert_eq!(cfg.pid, "");
    assert_eq!(cfg.led_gpio, 9);
}

#[test]
fn decode_hex_is_upper_case() {
    let cfg = decode_config(&[0x00, 0x04, 0xAB, 0xCD, 0x0e, 0xf0]);
    assert_eq!(cfg.vid, "ABCD");
    assert_eq!(cfg.pid, "0EF0");
}

#[test]
fn encode_touch_timeout_only() {
    let mut u = empty_update();
    u.touch_timeout = Some(7);
    assert_eq!(encode_update(&u), Ok(vec![0x08, 0x01, 0x07]));
}

#[test]
fn encode_full_update_in_tag_order() {
    let u = AppConfigInput {
        vid: Some("20a0".to_string()),
        pid: Some("42B1".to_string()),
        product_name: Some("Key".to_string()),
        led_gpio: Some(25),
        led_brightness: Some(15),
        touch_timeout: Some(30),
        led_driver: Some(2),
        led_dimmable: Some(true),
        power_cycle_on_reset: Some(false),
        led_steady: Some(true),
        enable_secp256k1: Some(true),
    };
    let expected: Vec<u8> = vec![
        0x00, 0x04, 0x20, 0xA0, 0x42, 0xB1, // VID/PID
        0x04, 0x01, 25, // LED GPIO
        0x05, 0x01, 15, // brightness
        0x08, 0x01, 30, // touch timeout
        0x06, 0x02, 0x00, 0x0E, // options: dimmable, power reset disabled, steady
        0x0A, 0x04, 0x00, 0x00, 0x00, 0x08, // curves: secp256k1
        0x0C, 0x01, 2, // LED driver
        0x09, 0x04, b'K', b'e', b'y', 0x00, // product name
    ];
    assert_eq!(encode_update(&u), Ok(expected));
}

#[test]
fn round_trip_restores_fields() {
    let u = AppConfigInput {
        vid: Some("1209".to_string()),
        pid: Some("4823".to_string()),
        product_name: Some("Pico Key ✓".to_string()),
        led_gpio: Some(16),
        led_brightness: Some(8),
        touch_timeout: Some(15),
        led_driver: Some(1),
        led_dimmable: Some(false),
        power_cycle_on_reset: Some(true),
        led_steady: Some(false),
        enable_secp256k1: Some(false),
    };
    let bytes = encode_update(&u).unwrap();
    let cfg = decode_config(&bytes);
    assert_eq!(cfg.vid, "1209");
    assert_eq!(cfg.pid, "4823");
    assert_eq!(cfg.product_name, "Pico Key ✓");
    assert_eq!(cfg.led_gpio, 16);
    assert_eq!(cfg.led_brightness, 8);
    assert_eq!(cfg.touch_timeout, 15);
    assert_eq!(cfg.led_driver, Some(1));
    assert!(!cfg.led_dimmable);
    assert!(cfg.power_cycle_on_reset);
    assert!(!cfg.led_steady);
    assert!(!cfg.enable_secp256k1);
}

#[test]
fn product_name_of_31_bytes_is_accepted() {
    let mut u = empty_update();
    let name = "a".repeat(31);
    u.product_name = Some(name.clone());
    let bytes = encode_update(&u).unwrap();
    assert_eq!(bytes.len(), 2 + 32);
    assert_eq!(bytes[0], 0x09);
    assert_eq!(bytes[1], 32);
    assert_eq!(bytes[33], 0);
    assert_eq!(decode_config(&bytes).product_name, name);
}

#[test]
fn product_name_of_32_bytes_is_refused() {
    let mut u = empty_update();
    u.product_name = Some("b".repeat(32));
    u.led_gpio = Some(3);
    assert_eq!(encode_update(&u), Err(AppError::Io(InputError::ProductNameTooLong)));
    assert_eq!(plan_config_write(&u), Err(AppError::Io(InputError::ProductNameTooLong)));
}

#[test]
fn empty_product_name_is_not_written() {
    let mut u = empty_update();
    u.product_name = Some(String::new());
    assert_eq!(encode_update(&u), Ok(vec![]));
}

#[test]
fn invalid_vid_and_pid_are_refused() {
    let mut u = empty_update();
    u.vid = Some("12G4".to_string());
    u.pid = Some("5678".to_string());
    assert_eq!(encode_update(&u), Err(AppError::Io(InputError::InvalidVid)));
    u.vid = Some("1234".to_string());
    u.pid = Some("10000".to_string());
    assert_eq!(encode_update(&u), Err(AppError::Io(InputError::InvalidPid)));
}

#[test]
fn vid_without_pid_is_not_written() {
    let mut u = empty_update();
    u.vid = Some("zzzz".to_string());
    assert_eq!(encode_update(&u), Ok(vec![]));
}

#[test]
fn partial_options_are_not_written() {
    let mut u = empty_update();
    u.led_dimmable = Some(true);
    u.led_steady = Some(true);
    assert_eq!(encode_update(&u), Ok(vec![]));
}

#[test]
fn vid_pid_need_exactly_four_hex_digits() {
    assert_eq!(parse_hex4("1234"), Some(0x1234));
    assert_eq!(parse_hex4("abCD"), Some(0xABCD));
    assert_eq!(parse_hex4("0000"), Some(0));
    assert_eq!(parse_hex4("FFFF"), Some(0xFFFF));
    assert_eq!(parse_hex4("7"), None);
    assert_eq!(parse_hex4("123"), None);
    assert_eq!(parse_hex4("+1F2"), None);
    assert_eq!(parse_hex4("+1F23"), None);
    assert_eq!(parse_hex4("0000FFFF"), None);
    assert_eq!(parse_hex4("12345"), None);
    assert_eq!(parse_hex4(""), None);
    assert_eq!(parse_hex4("12 4"), None);
    assert_eq!(parse_hex4("12\u{e9}"), None);
    assert_eq!(parse_hex4("ＡＢＣＤ"), None);
}

#[test]
fn short_vid_is_refused() {
    let mut u = empty_update();
    u.vid = Some("7".to_string());
    u.pid = Some("1234".to_string());
    assert_eq!(encode_update(&u), Err(AppError::Io(InputError::InvalidVid)));
    assert_eq!(plan_config_write(&u), Err(AppError::Io(InputError::InvalidVid)));
    u.vid = Some("1234".to_string());
    u.pid = Some("+123".to_string());
    assert_eq!(encode_update(&u), Err(AppError::Io(InputError::InvalidPid)));
}

#[test]
fn lower_case_vid_reads_back_upper_case() {
    let mut u = empty_update();
    u.vid = Some("cafe".to_string());
    u.pid = Some("4a2b".to_string());
    let cfg = decode_config(&encode_update(&u).unwrap());
    assert_eq!(cfg.vid, "CAFE");
    assert_eq!(cfg.pid, "4A2B");
}

#[test]
fn options_bitfield_round_trip() {
    let w = encode_options(true, true, false);
    assert_eq!(w, 0x0002);
    assert_eq!(w & OPT_DISABLE_POWER_RESET, 0);
    assert_eq!(decode_options(w), (true, true, false));
    assert_eq!(encode_options(false, false, false), 0x0004);
    assert_eq!(decode_options(0x0004), (false, false, false));
    assert_eq!(decode_options(0x000A), (true, true, true));
}

#[test]
fn truncated_entry_keeps_earlier_fields() {
    let cfg = decode_config(&[0x04, 0x01, 0x05, 0x08, 0x01, 0x0F, 0x05, 0x09, 0x01]);
    assert_eq!(cfg.led_gpio, 5);
    assert_eq!(cfg.touch_timeout, 15);
    assert_eq!(cfg.led_brightness, 0);
}

#[test]
fn lone_header_byte_ends_decoding() {
    let cfg = decode_config(&[0x0C, 0x01, 0x03, 0x04]);
    assert_eq!(cfg.led_driver, Some(3));
    assert_eq!(cfg.led_gpio, 0);
}

#[test]
fn unknown_tags_are_skipped() {
    let cfg = decode_config(&[0x07, 0x03, 0xFF, 0xFF, 0xFF, 0x05, 0x01, 0x0C, 0x0B, 0x00]);
    assert_eq!(cfg.led_brightness, 12);
    assert_eq!(cfg.led_driver, None);
}

#[test]
fn empty_single_byte_values_are_ignored() {
    let cfg = decode_config(&[0x04, 0x00, 0x0C, 0x00, 0x05, 0x01, 0x02]);
    assert_eq!(cfg.led_gpio, 0);
    assert_eq!(cfg.led_driver, None);
    assert_eq!(cfg.led_brightness, 2);
}

#[test]
fn options_and_curves_decode() {
    let cfg = decode_config(&[0x06, 0x02, 0x00, 0x0C, 0x0A, 0x04, 0x00, 0x00, 0x00, 0x08]);
    assert!(!cfg.led_dimmable);
    assert!(!cfg.power_cycle_on_reset);
    assert!(cfg.led_steady);
    assert!(cfg.enable_secp256k1);
    let short = decode_config(&[0x06, 0x01, 0x02, 0x0A, 0x02, 0x00, 0x08]);
    assert!(!short.led_dimmable);
    assert!(!short.power_cycle_on_reset);
    assert!(!short.enable_secp256k1);
}

#[test]
fn product_name_drops_trailing_nul_bytes() {
    assert_eq!(decode_name(b"Pico\0"), "Pico");
    assert_eq!(decode_name(b"\0\0Pico\0\0"), "\0\0Pico");
    assert_eq!(decode_name(b"\0\0"), "");
    assert_eq!(decode_name(&[0x50, 0xFF, 0x00]), "");
    let cfg = decode_config(&[0x09, 0x05, b'F', b'i', b'd', b'o', 0x00]);
    assert_eq!(cfg.product_name, "Fido");
}
