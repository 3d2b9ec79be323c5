//! Interpreting the responses of the read commands and assembling them into
//! one status snapshot.
use crate::apdu::{body, has_success_trailer, is_success, response_body, trailer, trailer_bytes};
use crate::tlv::{decode_config, decode_spec};
use crate::types::{
    is_device_error, AppConfig, AppError, ConfigModel, DeviceError, DeviceFault, DeviceInfo,
    FullDeviceStatus,
};
use crate::wire::{be32, decimal, dotted_version, encode_hex_upper, hex_upper, read_be_u32};
use vstd::prelude::*;

verus! {

/// Shortest select response: MCU, product, version major and minor, 8-byte
/// serial, status trailer.
pub const SELECT_RESPONSE_MIN: usize = 14;

/// What the select response tells.
pub struct SelectInfo {
    pub version_major: u8,
    pub version_minor: u8,
    /// The 8-byte serial number as upper-case hexadecimal.
    pub serial: String,
}

/// Flash figures in bytes. Only `used` and `total` reach the snapshot; `free`
/// is kept for callers that want it.
#[derive(Clone, Copy, Debug, PartialEq, Eq, Structural)]
pub struct FlashInfo {
    pub free: u32,
    pub used: u32,
    pub total: u32,
}

/// Secure-boot flags.
#[derive(Clone, Copy, Debug, PartialEq, Eq, Structural)]
pub struct SecureBootStatus {
    pub enabled: bool,
    pub locked: bool,
}

/// A select response is accepted when it ends with `90 00` and is long
/// enough to hold version and serial.
pub open spec fn select_accepted(r: Seq<u8>) -> bool {
    has_success_trailer(r) && r.len() >= SELECT_RESPONSE_MIN
}

/// `s` holds the version bytes and the hexadecimal serial of response `r`.
pub open spec fn select_info_of(s: SelectInfo, r: Seq<u8>) -> bool {
    &&& s.version_major == r[2]
    &&& s.version_minor == r[3]
    &&& s.serial@ == hex_upper(r.subrange(4, 12))
}

/// The error for a refused select response: the applet is missing when the
/// trailer is not `90 00`, else the response is too short.
pub open spec fn select_error_of(e: AppError, r: Seq<u8>) -> bool {
    if !has_success_trailer(r) {
        is_device_error(e, DeviceFault::AppletNotFound, trailer(r))
    } else {
        is_device_error(e, DeviceFault::InvalidSelectResponse, r)
    }
}

/// The `k`-th big-endian 32-bit word of `b`, or 0 when `b` is too short.
pub open spec fn word_at(b: Seq<u8>, k: int) -> u32 {
    if b.len() >= 4 * k + 4 {
        be32(b[4 * k], b[4 * k + 1], b[4 * k + 2], b[4 * k + 3]) as u32
    } else {
        0
    }
}

/// Free, used and total flash from the body of the flash-information
/// response.
pub open spec fn flash_info_spec(b: Seq<u8>) -> FlashInfo {
    FlashInfo { free: word_at(b, 0), used: word_at(b, 1), total: word_at(b, 2) }
}

/// The secure-boot flags of a response, non-zero meaning set; both off when
/// the read did not succeed with at least two bytes of body.
pub open spec fn secure_boot_spec(r: Seq<u8>) -> SecureBootStatus {
    if has_success_trailer(r) && r.len() >= 4 {
        SecureBootStatus { enabled: r[0] != 0, locked: r[1] != 0 }
    } else {
        SecureBootStatus { enabled: false, locked: false }
    }
}

/// Reads version and serial from the select response.
pub fn parse_select_response(r: &[u8]) -> (res: Result<SelectInfo, AppError>)
    ensures
        res is Ok == select_accepted(r@),
        res matches Ok(s) ==> select_info_of(s, r@),
        res matches Err(e) ==> select_error_of(e, r@),
{
    if !is_success(r) {
        return Err(
            AppError::Device(DeviceError { fault: DeviceFault::AppletNotFound, bytes: trailer_bytes(r) }),
        );
    }
    if r.len() < SELECT_RESPONSE_MIN {
        let mut all: Vec<u8> = Vec::new();
        all.extend_from_slice(r);
        assert(all@ =~= r@);
        return Err(
            AppError::Device(DeviceError { fault: DeviceFault::InvalidSelectResponse, bytes: all }),
        );
    }
    Ok(SelectInfo { version_major: r[2], version_minor: r[3], serial: encode_hex_upper(&r[4..12]) })
}

fn word_at_exec(b: &[u8], k: usize) -> (w: u32)
    requires
        k <= 2,
    ensures
        w == word_at(b@, k as int),
{
    if b.len() >= 4 * k + 4 {
        read_be_u32(&b[4 * k..4 * k + 4])
    } else {
        0
    }
}

/// Reads free, used and total flash from the flash-information response.
/// Words missing from a short body read as 0.
pub fn parse_flash_info(r: &[u8]) -> (res: Result<FlashInfo, AppError>)
    ensures
        res is Ok == has_success_trailer(r@),
        res matches Ok(f) ==> f == flash_info_spec(body(r@)),
        res matches Err(e) ==> is_device_error(e, DeviceFault::FlashReadFailed, trailer(r@)),
{
    let b = response_body(r, DeviceFault::FlashReadFailed)?;
    Ok(
        FlashInfo {
            free: word_at_exec(b.as_slice(), 0),
            used: word_at_exec(b.as_slice(), 1),
            total: word_at_exec(b.as_slice(), 2),
        },
    )
}

/// Reads the secure-boot flags; a refused or short response gives both off.
pub fn parse_secure_boot(r: &[u8]) -> (s: SecureBootStatus)
    ensures
        s == secure_boot_spec(r@),
{
    if is_success(r) && r.len() >= 4 {
        SecureBootStatus { enabled: r[0] != 0, locked: r[1] != 0 }
    } else {
        SecureBootStatus { enabled: false, locked: false }
    }
}

/// Decodes the configuration-read response; only a refused read fails.
pub fn parse_config_response(r: &[u8]) -> (res: Result<AppConfig, AppError>)
    ensures
        res is Ok == has_success_trailer(r@),
        res matches Ok(c) ==> c@ == decode_spec(body(r@)),
        res matches Err(e) ==> is_device_error(e, DeviceFault::ConfigReadFailed, trailer(r@)),
{
    let b = response_body(r, DeviceFault::ConfigReadFailed)?;
    Ok(decode_config(b.as_slice()))
}

/// `i` holds the serial, the flash figures in kilobytes (rounded down) and
/// the version as `major.minor`.
pub open spec fn device_info_of(i: DeviceInfo, s: SelectInfo, f: FlashInfo) -> bool {
    &&& i.serial@ == s.serial@
    &&& i.flash_used == f.used / 1024
    &&& i.flash_total == f.total / 1024
    &&& i.firmware_version@ == decimal(s.version_major as nat) + seq!['.'] + decimal(
        s.version_minor as nat,
    )
}

/// `st` is the snapshot of the given parts.
pub open spec fn status_of(
    st: FullDeviceStatus,
    s: SelectInfo,
    f: FlashInfo,
    sb: SecureBootStatus,
    c: ConfigModel,
) -> bool {
    &&& device_info_of(st.info, s, f)
    &&& st.config@ == c
    &&& st.secure_boot == sb.enabled
    &&& st.secure_lock == sb.locked
}

/// Identity and storage figures from the select and flash responses.
pub fn device_info(s: SelectInfo, f: FlashInfo) -> (i: DeviceInfo)
    ensures
        device_info_of(i, s, f),
{
    let firmware_version = dotted_version(s.version_major, s.version_minor);
    DeviceInfo {
        serial: s.serial,
        flash_used: f.used / 1024,
        flash_total: f.total / 1024,
        firmware_version,
    }
}

/// Puts the parts of a status read together.
pub fn assemble_status(
    s: SelectInfo,
    f: FlashInfo,
    sb: SecureBootStatus,
    config: AppConfig,
) -> (st: FullDeviceStatus)
    ensures
        status_of(st, s, f, sb, config@),
{
    FullDeviceStatus {
        info: device_info(s, f),
        config,
        secure_boot: sb.enabled,
        secure_lock: sb.locked,
    }
}

} // verus!
