use picoforge::apdu::{
    config_read_command, config_write_command, flash_info_command, reboot_command,
    secure_boot_command, secure_boot_status_command, select_command, trailer_bytes,
};
use picoforge::session::{plan_config_write, CommandRun, CommandStep, ReadStep, StatusRead};
use picoforge::status::{
    assemble_status, parse_flash_info, parse_secure_boot, parse_select_response, FlashInfo,
    SecureBootStatus, SelectInfo,
};
use picoforge::tlv::decode_config;
use picoforge::types::{AppConfigInput, AppError, DeviceError, DeviceFault, InputError};
use picoforge::ui_state::GlobalDeviceState;

fn empty_update() -> AppConfigInput {
    AppConfigInput {
        vid: None,
        pid: None,
        product_name: None,
        led_gpio: None,
        led_brightness: None,
        touch_timeout: None,
        led_driver: None,
        led_dimmable: None,
        power_cycle_on_reset: None,
        led_steady: None,
        enable_secp256k1: None,
    }
}

fn select_ok() -> Vec<u8> {
    vec![0x01, 0x02, 0x03, 0x07, 0xDE, 0xAD, 0xBE, 0xEF, 0x01, 0x23, 0x45, 0x67, 0x90, 0x00]
}

fn device_error(fault: DeviceFault, bytes: Vec<u8>) -> AppError {
    AppError::Device(DeviceError { fault, bytes })
}

fn expect_send(step: ReadStep) -> (StatusRead, Vec<u8>) {
    match step {
        ReadStep::Send(state, frame) => (state, frame),
        ReadStep::Finished(_) => panic!("the read ended early"),
    }
}

fn expect_finished(step: ReadStep) -> Result<picoforge::types::FullDeviceStatus, AppError> {
    match step {
        ReadStep::Finished(r) => r,
        ReadStep::Send(_, _) => panic!("the read went on"),
    }
}

#[test]
fn frames_are_byte_exact() {
    assert_eq!(
        select_command(),
        vec![0x00, 0xA4, 0x04, 0x04, 0x08, 0xA0, 0x58, 0x3F, 0xC1, 0x9B, 0x7E, 0x4F, 0x21]
    );
    assert_eq!(flash_info_command(), vec![0x80, 0x1E, 0x02, 0x00, 0x00]);
    assert_eq!(secure_boot_status_command(), vec![0x80, 0x1E, 0x03, 0x00, 0x00]);
    assert_eq!(config_read_command(), vec![0x80, 0x1E, 0x01, 0x01, 0x00]);
    assert_eq!(config_write_command(&vec![0x08, 0x01, 0x07]), vec![0x80, 0x1C, 0x01, 0x00, 0x03, 0x08, 0x01, 0x07]);
    assert_eq!(secure_boot_command(true), vec![0x80, 0x1D, 0x00, 0x01, 0x00]);
    assert_eq!(secure_boot_command(false), vec![0x80, 0x1D, 0x00, 0x00, 0x00]);
    assert_eq!(reboot_command(true), vec![0x80, 0x1F, 0x01, 0x00, 0x00]);
}

#[test]
fn trailer_of_short_response_is_whole_response() {
    assert_eq!(trailer_bytes(&[0x6A]), vec![0x6A]);
    assert_eq!(trailer_bytes(&[0x01, 0x02, 0x6A, 0x82]), vec![0x6A, 0x82]);
}

#[test]
fn select_response_gives_version_and_serial() {
    let s = parse_select_response(&select_ok()).unwrap();
    assert_eq!(s.version_major, 3);
    assert_eq!(s.version_minor, 7);
    assert_eq!(s.serial, "DEADBEEF01234567");
}

#[test]
fn select_refusals() {
    assert_eq!(
        parse_select_response(&[0x6A, 0x82]).err(),
        Some(device_error(DeviceFault::AppletNotFound, vec![0x6A, 0x82]))
    );
    assert_eq!(
        parse_select_response(&[0x01, 0x02, 0x90, 0x00]).err(),
        Some(device_error(DeviceFault::InvalidSelectResponse, vec![0x01, 0x02, 0x90, 0x00]))
    );
}

#[test]
fn flash_info_words_are_big_endian() {
    let r = [0, 0, 0x10, 0, 0, 0x01, 0x02, 0x03, 0, 0x20, 0, 0, 0x90, 0x00];
    let f = parse_flash_info(&r).unwrap();
    assert_eq!(f, FlashInfo { free: 0x1000, used: 0x010203, total: 0x200000 });
    let short = parse_flash_info(&[0, 0, 0, 5, 0, 0, 0x90, 0x00]).unwrap();
    assert_eq!(short, FlashInfo { free: 5, used: 0, total: 0 });
}

#[test]
fn secure_boot_defaults_when_refused_or_short() {
    assert_eq!(parse_secure_boot(&[1, 0, 0x90, 0x00]), SecureBootStatus { enabled: true, locked: false });
    assert_eq!(parse_secure_boot(&[1, 2, 3, 0x90, 0x00]), SecureBootStatus { enabled: true, locked: true });
    assert_eq!(parse_secure_boot(&[1, 0x90, 0x00]), SecureBootStatus { enabled: false, locked: false });
    assert_eq!(parse_secure_boot(&[1, 1, 0x69, 0x85]), SecureBootStatus { enabled: false, locked: false });
}

#[test]
fn assembled_status_uses_kilobytes_and_dotted_version() {
    let s = SelectInfo { version_major: 6, version_minor: 12, serial: "00AA".to_string() };
    let f = FlashInfo { free: 1, used: 2047, total: 2 * 1024 * 1024 };
    let sb = SecureBootStatus { enabled: true, locked: false };
    let st = assemble_status(s, f, sb, decode_config(&[]));
    assert_eq!(st.info.flash_used, 1);
    assert_eq!(st.info.flash_total, 2048);
    assert_eq!(st.info.firmware_version, "6.12");
    assert_eq!(st.info.serial, "00AA");
    assert!(st.secure_boot);
    assert!(!st.secure_lock);
}

#[test]
fn status_read_runs_four_commands() {
    let (state, frame) = StatusRead::start();
    assert_eq!(frame, select_command());
    let (state, frame) = expect_send(state.advance(Ok(select_ok())));
    assert_eq!(frame, flash_info_command());
    let flash = vec![0, 0, 0, 0, 0, 0, 0x08, 0, 0, 0x10, 0, 0, 0x90, 0x00];
    let (state, frame) = expect_send(state.advance(Ok(flash)));
    assert_eq!(frame, secure_boot_status_command());
    let (state, frame) = expect_send(state.advance(Err("reader gone".to_string())));
    assert_eq!(frame, config_read_command());
    let config = vec![0x04, 0x01, 0x19, 0x00, 0x04, 0x12, 0x09, 0x40, 0x01, 0x90, 0x00];
    let st = expect_finished(state.advance(Ok(config))).unwrap();
    assert_eq!(st.info.serial, "DEADBEEF01234567");
    assert_eq!(st.info.firmware_version, "3.7");
    assert_eq!(st.info.flash_used, 2);
    assert_eq!(st.info.flash_total, 1024);
    assert!(!st.secure_boot);
    assert!(!st.secure_lock);
    assert_eq!(st.config.led_gpio, 0x19);
    assert_eq!(st.config.vid, "1209");
    assert_eq!(st.config.pid, "4001");
}

#[test]
fn refused_reads_report_the_trailer() {
    let (state, _) = StatusRead::start();
    let r = expect_finished(state.advance(Ok(vec![0x6A, 0x82])));
    assert_eq!(r.err(), Some(device_error(DeviceFault::AppletNotFound, vec![0x6A, 0x82])));

    let (state, _) = StatusRead::start();
    let (state, _) = expect_send(state.advance(Ok(select_ok())));
    let r = expect_finished(state.advance(Ok(vec![1, 2, 3, 0x69, 0x82])));
    assert_eq!(r.err(), Some(device_error(DeviceFault::FlashReadFailed, vec![0x69, 0x82])));

    let (state, _) = StatusRead::start();
    let (state, _) = expect_send(state.advance(Ok(select_ok())));
    let (state, _) = expect_send(state.advance(Ok(vec![0x90, 0x00])));
    let (state, _) = expect_send(state.advance(Ok(vec![0x6D, 0x00])));
    let r = expect_finished(state.advance(Ok(vec![0x04, 0x01, 0x05, 0x6F, 0x00])));
    assert_eq!(r.err(), Some(device_error(DeviceFault::ConfigReadFailed, vec![0x6F, 0x00])));
}

#[test]
fn transport_failure_ends_the_read() {
    let (state, _) = StatusRead::start();
    let (state, _) = expect_send(state.advance(Ok(select_ok())));
    let r = expect_finished(state.advance(Err("card removed".to_string())));
    assert_eq!(r.err(), Some(AppError::Pcsc("card removed".to_string())));
}

#[test]
fn empty_update_needs_no_transmission() {
    assert_eq!(plan_config_write(&empty_update()), Ok(None));
}

#[test]
fn write_plan_frames_the_entries() {
    let mut u = empty_update();
    u.touch_timeout = Some(7);
    assert_eq!(plan_config_write(&u), Ok(Some(vec![0x80, 0x1C, 0x01, 0x00, 0x03, 0x08, 0x01, 0x07])));
    u.product_name = Some("x".repeat(40));
    assert_eq!(plan_config_write(&u), Err(AppError::Io(InputError::ProductNameTooLong)));
}

#[test]
fn command_run_succeeds_on_9000() {
    let (run, frame) = CommandRun::start(secure_boot_command(true), DeviceFault::SecureBootFailed);
    assert_eq!(frame, select_command());
    let run = match run.advance(Ok(select_ok())) {
        CommandStep::Send(run, frame) => {
            assert_eq!(frame, vec![0x80, 0x1D, 0x00, 0x01, 0x00]);
            run
        }
        CommandStep::Finished(_) => panic!("the command was not sent"),
    };
    assert!(matches!(run.advance(Ok(vec![0x90, 0x00])), CommandStep::Finished(Ok(()))));
}

#[test]
fn command_run_reports_refusals() {
    let (run, _) = CommandRun::start(reboot_command(false), DeviceFault::RebootFailed);
    match run.advance(Ok(vec![0x6A, 0x82])) {
        CommandStep::Finished(Err(e)) => {
            assert_eq!(e, device_error(DeviceFault::AppletNotFound, vec![0x6A, 0x82]))
        }
        _ => panic!("a refused select must end the session"),
    }
    let (run, _) = CommandRun::start(reboot_command(false), DeviceFault::RebootFailed);
    let run = match run.advance(Ok(vec![0x90, 0x00])) {
        CommandStep::Send(run, _) => run,
        CommandStep::Finished(_) => panic!("the command was not sent"),
    };
    match run.advance(Ok(vec![0x69, 0x85])) {
        CommandStep::Finished(Err(e)) => {
            assert_eq!(e, device_error(DeviceFault::RebootFailed, vec![0x69, 0x85]))
        }
        _ => panic!("a refused command must fail"),
    }
}

#[test]
fn new_global_state_is_empty() {
    let s = GlobalDeviceState::new();
    assert!(s.device_status.is_none());
    assert!(s.fido_info.is_none());
    assert!(s.error.is_none());
}
