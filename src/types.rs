//! The records exchanged with callers and the error taxonomy.
use crate::fido_options::FidoOptions;
use vstd::prelude::*;

verus! {

/// Identity and storage figures of the token.
#[derive(Clone, Debug, PartialEq)]
pub struct DeviceInfo {
    /// The 8-byte serial number as upper-case hexadecimal.
    pub serial: String,
    /// Used flash, in kilobytes.
    pub flash_used: u32,
    /// Total flash, in kilobytes.
    pub flash_total: u32,
    /// `major.minor` of the applet's protocol.
    pub firmware_version: String,
}

/// The device's configuration as read from its TLV blob.
#[derive(Clone, Debug, PartialEq)]
pub struct AppConfig {
    /// Vendor id, four upper-case hexadecimal digits.
    pub vid: String,
    /// Product id, four upper-case hexadecimal digits.
    pub pid: String,
    pub product_name: String,
    pub led_gpio: u8,
    pub led_brightness: u8,
    pub touch_timeout: u8,
    /// Absent when the firmware does not report an LED driver.
    pub led_driver: Option<u8>,
    pub led_dimmable: bool,
    pub power_cycle_on_reset: bool,
    pub led_steady: bool,
    pub enable_secp256k1: bool,
}

/// The configuration as mathematical values: text as characters.
pub struct ConfigModel {
    pub vid: Seq<char>,
    pub pid: Seq<char>,
    pub product_name: Seq<char>,
    pub led_gpio: u8,
    pub led_brightness: u8,
    pub touch_timeout: u8,
    pub led_driver: Option<u8>,
    pub led_dimmable: bool,
    pub power_cycle_on_reset: bool,
    pub led_steady: bool,
    pub enable_secp256k1: bool,
}

impl View for AppConfig {
    type V = ConfigModel;

    open spec fn view(&self) -> ConfigModel {
        ConfigModel {
            vid: self.vid@,
            pid: self.pid@,
            product_name: self.product_name@,
            led_gpio: self.led_gpio,
            led_brightness: self.led_brightness,
            touch_timeout: self.touch_timeout,
            led_driver: self.led_driver,
            led_dimmable: self.led_dimmable,
            power_cycle_on_reset: self.power_cycle_on_reset,
            led_steady: self.led_steady,
            enable_secp256k1: self.enable_secp256k1,
        }
    }
}

/// The configuration a decode starts from: empty text, zero bytes, no LED
/// driver, every flag off.
pub open spec fn empty_config() -> ConfigModel {
    ConfigModel {
        vid: seq![],
        pid: seq![],
        product_name: seq![],
        led_gpio: 0,
        led_brightness: 0,
        touch_timeout: 0,
        led_driver: None,
        led_dimmable: false,
        power_cycle_on_reset: false,
        led_steady: false,
        enable_secp256k1: false,
    }
}

impl Default for AppConfig {
    fn default() -> (r: AppConfig)
        ensures
            r@ == empty_config(),
    {
        AppConfig {
            vid: String::new(),
            pid: String::new(),
            product_name: String::new(),
            led_gpio: 0,
            led_brightness: 0,
            touch_timeout: 0,
            led_driver: None,
            led_dimmable: false,
            power_cycle_on_reset: false,
            led_steady: false,
            enable_secp256k1: false,
        }
    }
}

/// A partial configuration update: only the fields that are present are
/// written to the device.
#[derive(Clone, Debug, PartialEq)]
pub struct AppConfigInput {
    pub vid: Option<String>,
    pub pid: Option<String>,
    pub product_name: Option<String>,
    pub led_gpio: Option<u8>,
    pub led_brightness: Option<u8>,
    pub touch_timeout: Option<u8>,
    pub led_driver: Option<u8>,
    pub led_dimmable: Option<bool>,
    pub power_cycle_on_reset: Option<bool>,
    pub led_steady: Option<bool>,
    pub enable_secp256k1: Option<bool>,
}

/// Everything a status read gathers in one session.
#[derive(Clone, Debug, PartialEq)]
pub struct FullDeviceStatus {
    pub info: DeviceInfo,
    pub config: AppConfig,
    pub secure_boot: bool,
    pub secure_lock: bool,
}

/// What the FIDO side of the token reports about itself.
#[derive(Clone, Debug, PartialEq)]
pub struct FidoDeviceInfo {
    pub versions: Vec<String>,
    pub extensions: Vec<String>,
    pub aaguid: String,
    pub options: FidoOptions,
    pub max_msg_size: i32,
    pub pin_protocols: Vec<u32>,
    pub min_pin_length: u32,
    pub firmware_version: String,
}

/// Whether the host window is maximized.
#[derive(Clone, Copy, Debug, PartialEq, Eq, Structural)]
pub struct WindowState {
    pub is_maximized: bool,
}

/// What a device-level failure was about.
#[derive(Clone, Copy, Debug, PartialEq, Eq, Structural)]
pub enum DeviceFault {
    /// No card reader is attached.
    NoReader,
    /// Selecting the rescue applet did not succeed.
    AppletNotFound,
    /// The select response is too short to hold version and serial.
    InvalidSelectResponse,
    /// The flash-information read was refused.
    FlashReadFailed,
    /// The configuration read was refused.
    ConfigReadFailed,
    /// The configuration write was refused.
    WriteFailed,
    /// The secure-boot command was refused.
    SecureBootFailed,
    /// The reboot command was refused.
    RebootFailed,
}

/// A caller-supplied value that fails local validation.
#[derive(Clone, Copy, Debug, PartialEq, Eq, Structural)]
pub enum InputError {
    InvalidVid,
    InvalidPid,
    ProductNameTooLong,
}

/// A failure reported by the device, with the bytes that show it: the status
/// trailer where the response has one, else the response itself.
#[derive(Clone, Debug, PartialEq)]
pub struct DeviceError {
    pub fault: DeviceFault,
    pub bytes: Vec<u8>,
}

/// The failures of an operation.
#[derive(Clone, Debug, PartialEq)]
pub enum AppError {
    /// The card-reader stack failed; its message.
    Pcsc(String),
    /// Input rejected before any device I/O.
    Io(InputError),
    /// The device refused or answered malformed.
    Device(DeviceError),
}

/// `e` is a device error of kind `fault` that carries `bytes`.
pub open spec fn is_device_error(e: AppError, fault: DeviceFault, bytes: Seq<u8>) -> bool {
    match e {
        AppError::Device(d) => d.fault == fault && d.bytes@ == bytes,
        _ => false,
    }
}

/// `e` is a transport error carrying the message `m`.
pub open spec fn is_transport_error(e: AppError, m: Seq<char>) -> bool {
    match e {
        AppError::Pcsc(s) => s@ == m,
        _ => false,
    }
}

} // verus!
