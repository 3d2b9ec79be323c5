//! Command frames of the rescue applet and the status trailer that ends
//! every response.
use crate::types::{is_device_error, AppError, DeviceError, DeviceFault};
use vstd::prelude::*;

verus! {

/// Class byte of the applet's proprietary commands.
pub const CLA_PROPRIETARY: u8 = 0x80;

/// Instruction that writes configuration.
pub const INS_WRITE: u8 = 0x1C;

/// Instruction that enables secure boot.
pub const INS_SECURE: u8 = 0x1D;

/// Instruction shared by the read commands.
pub const INS_READ: u8 = 0x1E;

/// Instruction that reboots the token.
pub const INS_REBOOT: u8 = 0x1F;

/// Parameter 1 of the reads: flash information.
pub const P1_FLASH_INFO: u8 = 0x02;

/// Parameter 1 of the reads: secure-boot status.
pub const P1_SECURE_BOOT: u8 = 0x03;

/// Parameter 1 of the reads and of the write: physical configuration.
pub const P1_CONFIG: u8 = 0x01;

/// First byte of the success trailer.
pub const SW1_OK: u8 = 0x90;

/// Second byte of the success trailer.
pub const SW2_OK: u8 = 0x00;

/// Application identifier of the rescue applet.
pub open spec fn rescue_aid() -> Seq<u8> {
    seq![0xA0u8, 0x58u8, 0x3Fu8, 0xC1u8, 0x9Bu8, 0x7Eu8, 0x4Fu8, 0x21u8]
}

/// The response ends with the success trailer `90 00`.
pub open spec fn has_success_trailer(r: Seq<u8>) -> bool {
    r.len() >= 2 && r[r.len() - 2] == SW1_OK && r[r.len() - 1] == SW2_OK
}

/// The last two bytes of a response, or all of it if it is shorter.
pub open spec fn trailer(r: Seq<u8>) -> Seq<u8> {
    if r.len() >= 2 {
        r.subrange(r.len() - 2, r.len() as int)
    } else {
        r
    }
}

/// The response without its two trailing status bytes.
pub open spec fn body(r: Seq<u8>) -> Seq<u8> {
    r.subrange(0, r.len() - 2)
}

pub open spec fn select_frame() -> Seq<u8> {
    seq![0x00u8, 0xA4u8, 0x04u8, 0x04u8, rescue_aid().len() as u8] + rescue_aid()
}

pub open spec fn flash_info_frame() -> Seq<u8> {
    seq![CLA_PROPRIETARY, INS_READ, P1_FLASH_INFO, 0x00u8, 0x00u8]
}

pub open spec fn secure_boot_status_frame() -> Seq<u8> {
    seq![CLA_PROPRIETARY, INS_READ, P1_SECURE_BOOT, 0x00u8, 0x00u8]
}

pub open spec fn config_read_frame() -> Seq<u8> {
    seq![CLA_PROPRIETARY, INS_READ, P1_CONFIG, 0x01u8, 0x00u8]
}

pub open spec fn config_write_frame(tlv: Seq<u8>) -> Seq<u8> {
    seq![CLA_PROPRIETARY, INS_WRITE, P1_CONFIG, 0x00u8, tlv.len() as u8] + tlv
}

pub open spec fn secure_boot_frame(lock: bool) -> Seq<u8> {
    seq![CLA_PROPRIETARY, INS_SECURE, 0x00u8, if lock { 1u8 } else { 0u8 }, 0x00u8]
}

pub open spec fn reboot_frame(to_bootsel: bool) -> Seq<u8> {
    seq![CLA_PROPRIETARY, INS_REBOOT, if to_bootsel { 1u8 } else { 0u8 }, 0x00u8, 0x00u8]
}

/// `00 A4 04 04 <len> <AID>`: selects the rescue applet.
pub fn select_command() -> (r: Vec<u8>)
    ensures
        r@ == select_frame(),
{
    let r = vec![0x00u8, 0xA4, 0x04, 0x04, 8, 0xA0, 0x58, 0x3F, 0xC1, 0x9B, 0x7E, 0x4F, 0x21];
    assert(r@ =~= select_frame());
    r
}

/// `80 <READ> 02 00 00`: free, used and total flash.
pub fn flash_info_command() -> (r: Vec<u8>)
    ensures
        r@ == flash_info_frame(),
{
    let r = vec![CLA_PROPRIETARY, INS_READ, P1_FLASH_INFO, 0x00, 0x00];
    assert(r@ =~= flash_info_frame());
    r
}

/// `80 <READ> 03 00 00`: secure-boot enabled and locked flags.
pub fn secure_boot_status_command() -> (r: Vec<u8>)
    ensures
        r@ == secure_boot_status_frame(),
{
    let r = vec![CLA_PROPRIETARY, INS_READ, P1_SECURE_BOOT, 0x00, 0x00];
    assert(r@ =~= secure_boot_status_frame());
    r
}

/// `80 <READ> 01 01 00`: the configuration TLV blob.
pub fn config_read_command() -> (r: Vec<u8>)
    ensures
        r@ == config_read_frame(),
{
    let r = vec![CLA_PROPRIETARY, INS_READ, P1_CONFIG, 0x01, 0x00];
    assert(r@ =~= config_read_frame());
    r
}

/// `80 <WRITE> 01 00 <len> <tlv>`: writes configuration entries.
pub fn config_write_command(tlv: &Vec<u8>) -> (r: Vec<u8>)
    requires
        tlv@.len() <= 255,
    ensures
        r@ == config_write_frame(tlv@),
{
    let mut r = vec![CLA_PROPRIETARY, INS_WRITE, P1_CONFIG, 0x00, tlv.len() as u8];
    r.extend_from_slice(tlv.as_slice());
    assert(r@ =~= config_write_frame(tlv@));
    r
}

/// `80 <SECURE> 00 <lock> 00`: enables secure boot, locking it if asked.
pub fn secure_boot_command(lock: bool) -> (r: Vec<u8>)
    ensures
        r@ == secure_boot_frame(lock),
{
    let lock_byte: u8 = if lock { 1 } else { 0 };
    let r = vec![CLA_PROPRIETARY, INS_SECURE, 0x00, lock_byte, 0x00];
    assert(r@ =~= secure_boot_frame(lock));
    r
}

/// `80 <REBOOT> <mode> 00 00`: reboots, into the bootloader if asked.
pub fn reboot_command(to_bootsel: bool) -> (r: Vec<u8>)
    ensures
        r@ == reboot_frame(to_bootsel),
{
    let mode: u8 = if to_bootsel { 1 } else { 0 };
    let r = vec![CLA_PROPRIETARY, INS_REBOOT, mode, 0x00, 0x00];
    assert(r@ =~= reboot_frame(to_bootsel));
    r
}

/// Whether the response ends with `90 00`.
pub fn is_success(r: &[u8]) -> (ok: bool)
    ensures
        ok == has_success_trailer(r@),
{
    let n = r.len();
    n >= 2 && r[n - 2] == SW1_OK && r[n - 1] == SW2_OK
}

/// The status trailer of a response (all of it when it has fewer than two
/// bytes).
pub fn trailer_bytes(r: &[u8]) -> (t: Vec<u8>)
    ensures
        t@ == trailer(r@),
{
    let n = r.len();
    let start: usize = if n >= 2 { n - 2 } else { 0 };
    let mut t: Vec<u8> = Vec::new();
    let mut i: usize = start;
    while i < n
        invariant
            start <= i <= n,
            n == r@.len(),
            t@ == r@.subrange(start as int, i as int),
        decreases n - i,
    {
        t.push(r[i]);
        i += 1;
        assert(t@ =~= r@.subrange(start as int, i as int));
    }
    assert(t@ =~= trailer(r@));
    t
}

/// The body of a successful response, or a device error of kind `fault`
/// carrying the trailer that was not `90 00`.
pub fn response_body(r: &[u8], fault: DeviceFault) -> (res: Result<Vec<u8>, AppError>)
    ensures
        res is Ok == has_success_trailer(r@),
        res matches Ok(b) ==> b@ == body(r@),
        res matches Err(e) ==> is_device_error(e, fault, trailer(r@)),
{
    if is_success(r) {
        let n = r.len();
        let mut b: Vec<u8> = Vec::new();
        let mut i: usize = 0;
        while i < n - 2
            invariant
                n == r@.len(),
                n >= 2,
                i <= n - 2,
                b@ == r@.subrange(0, i as int),
            decreases n - 2 - i,
        {
            b.push(r[i]);
            i += 1;
            assert(b@ =~= r@.subrange(0, i as int));
        }
        Ok(b)
    } else {
        Err(AppError::Device(DeviceError { fault, bytes: trailer_bytes(r) }))
    }
}

} // verus!
