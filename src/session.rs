//! The decisions of a device session, as step functions: each takes the
//! state and the outcome of the last transmission and returns the next
//! state with the frame to send, or the result of the operation. The caller
//! owns the card connection, transmits, and releases it when a step
//! finishes.
use crate::apdu::{
    body, config_read_command, config_read_frame, config_write_command, config_write_frame,
    flash_info_command, flash_info_frame, has_success_trailer, is_success,
    secure_boot_status_command, secure_boot_status_frame, select_command, select_frame, trailer,
    trailer_bytes,
};
use crate::status::{
    assemble_status, flash_info_spec, parse_config_response, parse_flash_info,
    parse_secure_boot, parse_select_response, secure_boot_spec, select_accepted,
    select_error_of, select_info_of, status_of, FlashInfo, SecureBootStatus, SelectInfo,
};
use crate::tlv::decode_spec;
use crate::types::{
    is_device_error, is_transport_error, AppConfigInput, AppError, DeviceError, DeviceFault,
    FullDeviceStatus,
};
use crate::update::{encode_spec, encode_update};
use vstd::prelude::*;

verus! {

/// Where a status read stands: what it has gathered so far.
pub enum StatusRead {
    AwaitSelect,
    AwaitFlash { select: SelectInfo },
    AwaitSecureBoot { select: SelectInfo, flash: FlashInfo },
    AwaitConfig { select: SelectInfo, flash: FlashInfo, secure: SecureBootStatus },
}

/// The next move of a status read.
pub enum ReadStep {
    /// Transmit the frame, then advance the state with the outcome.
    Send(StatusRead, Vec<u8>),
    /// The read is over.
    Finished(Result<FullDeviceStatus, AppError>),
}

/// What a status read does with one transmission outcome. A transport
/// failure or a refused select, flash or configuration read ends it; the
/// secure-boot read never does.
pub open spec fn read_step_spec(
    state: StatusRead,
    reply: Result<Vec<u8>, String>,
    step: ReadStep,
) -> bool {
    match reply {
        Err(m) => match state {
            StatusRead::AwaitSecureBoot { select, flash } => step matches ReadStep::Send(
                StatusRead::AwaitConfig { select: s2, flash: f2, secure },
                frame,
            ) && s2 == select && f2 == flash && secure == (SecureBootStatus {
                enabled: false,
                locked: false,
            }) && frame@ == config_read_frame(),
            _ => step matches ReadStep::Finished(Err(e)) && is_transport_error(e, m@),
        },
        Ok(r) => match state {
            StatusRead::AwaitSelect => if select_accepted(r@) {
                step matches ReadStep::Send(StatusRead::AwaitFlash { select }, frame)
                    && select_info_of(select, r@) && frame@ == flash_info_frame()
            } else {
                step matches ReadStep::Finished(Err(e)) && select_error_of(e, r@)
            },
            StatusRead::AwaitFlash { select } => if has_success_trailer(r@) {
                step matches ReadStep::Send(StatusRead::AwaitSecureBoot { select: s2, flash }, frame)
                    && s2 == select && flash == flash_info_spec(body(r@)) && frame@
                    == secure_boot_status_frame()
            } else {
                step matches ReadStep::Finished(Err(e)) && is_device_error(
                    e,
                    DeviceFault::FlashReadFailed,
                    trailer(r@),
                )
            },
            StatusRead::AwaitSecureBoot { select, flash } => step matches ReadStep::Send(
                StatusRead::AwaitConfig { select: s2, flash: f2, secure },
                frame,
            ) && s2 == select && f2 == flash && secure == secure_boot_spec(r@) && frame@
                == config_read_frame(),
            StatusRead::AwaitConfig { select, flash, secure } => if has_success_trailer(r@) {
                step matches ReadStep::Finished(Ok(st)) && status_of(
                    st,
                    select,
                    flash,
                    secure,
                    decode_spec(body(r@)),
                )
            } else {
                step matches ReadStep::Finished(Err(e)) && is_device_error(
                    e,
                    DeviceFault::ConfigReadFailed,
                    trailer(r@),
                )
            },
        },
    }
}

impl StatusRead {
    /// A status read begins by selecting the applet.
    pub fn start() -> (r: (StatusRead, Vec<u8>))
        ensures
            r.0 is AwaitSelect,
            r.1@ == select_frame(),
    {
        (StatusRead::AwaitSelect, select_command())
    }

    /// Takes the outcome of the last transmission (the response, or the
    /// transport's error message) and decides the next move.
    pub fn advance(self, reply: Result<Vec<u8>, String>) -> (step: ReadStep)
        ensures
            read_step_spec(self, reply, step),
    {
        match self {
            StatusRead::AwaitSelect => match reply {
                Err(m) => ReadStep::Finished(Err(AppError::Pcsc(m))),
                Ok(r) => match parse_select_response(r.as_slice()) {
                    Ok(select) => ReadStep::Send(
                        StatusRead::AwaitFlash { select },
                        flash_info_command(),
                    ),
                    Err(e) => ReadStep::Finished(Err(e)),
                },
            },
            StatusRead::AwaitFlash { select } => match reply {
                Err(m) => ReadStep::Finished(Err(AppError::Pcsc(m))),
                Ok(r) => match parse_flash_info(r.as_slice()) {
                    Ok(flash) => ReadStep::Send(
                        StatusRead::AwaitSecureBoot { select, flash },
                        secure_boot_status_command(),
                    ),
                    Err(e) => ReadStep::Finished(Err(e)),
                },
            },
            StatusRead::AwaitSecureBoot { select, flash } => {
                // A failed secure-boot read is not fatal: the flags default
                // to off.
                let secure = match &reply {
                    Ok(r) => parse_secure_boot(r.as_slice()),
                    Err(_) => SecureBootStatus { enabled: false, locked: false },
                };
                ReadStep::Send(
                    StatusRead::AwaitConfig { select, flash, secure },
                    config_read_command(),
                )
            },
            StatusRead::AwaitConfig { select, flash, secure } => match reply {
                Err(m) => ReadStep::Finished(Err(AppError::Pcsc(m))),
                Ok(r) => match parse_config_response(r.as_slice()) {
                    Ok(config) => ReadStep::Finished(
                        Ok(assemble_status(select, flash, secure, config)),
                    ),
                    Err(e) => ReadStep::Finished(Err(e)),
                },
            },
        }
    }
}

/// A single command run in its own session: select the applet, send the
/// command, read its status.
pub enum CommandRun {
    AwaitSelect { command: Vec<u8>, fault: DeviceFault },
    AwaitReply { fault: DeviceFault },
}

/// The next move of a single-command session.
pub enum CommandStep {
    /// Transmit the frame, then advance the state with the outcome.
    Send(CommandRun, Vec<u8>),
    /// The command is over.
    Finished(Result<(), AppError>),
}

/// What a single-command session does with one transmission outcome: a
/// refused select means the applet is missing; a refused command is an error
/// of the command's own kind, with its trailer.
pub open spec fn command_step_spec(
    state: CommandRun,
    reply: Result<Vec<u8>, String>,
    step: CommandStep,
) -> bool {
    match reply {
        Err(m) => step matches CommandStep::Finished(Err(e)) && is_transport_error(e, m@),
        Ok(r) => match state {
            CommandRun::AwaitSelect { command, fault } => if has_success_trailer(r@) {
                step matches CommandStep::Send(CommandRun::AwaitReply { fault: f2 }, frame) && f2
                    == fault && frame@ == command@
            } else {
                step matches CommandStep::Finished(Err(e)) && is_device_error(
                    e,
                    DeviceFault::AppletNotFound,
                    trailer(r@),
                )
            },
            CommandRun::AwaitReply { fault } => if has_success_trailer(r@) {
                step matches CommandStep::Finished(Ok(()))
            } else {
                step matches CommandStep::Finished(Err(e)) && is_device_error(e, fault, trailer(r@))
            },
        },
    }
}

impl CommandRun {
    /// A session for `command` begins by selecting the applet; `fault` names
    /// the error if the device refuses the command.
    pub fn start(command: Vec<u8>, fault: DeviceFault) -> (r: (CommandRun, Vec<u8>))
        ensures
            r.0 matches CommandRun::AwaitSelect { command: c, fault: f } && c@ == command@ && f
                == fault,
            r.1@ == select_frame(),
    {
        (CommandRun::AwaitSelect { command, fault }, select_command())
    }

    /// Takes the outcome of the last transmission and decides the next move.
    pub fn advance(self, reply: Result<Vec<u8>, String>) -> (step: CommandStep)
        ensures
            command_step_spec(self, reply, step),
    {
        let r = match reply {
            Ok(r) => r,
            Err(m) => return CommandStep::Finished(Err(AppError::Pcsc(m))),
        };
        match self {
            CommandRun::AwaitSelect { command, fault } => {
                if is_success(r.as_slice()) {
                    CommandStep::Send(CommandRun::AwaitReply { fault }, command)
                } else {
                    CommandStep::Finished(
                        Err(
                            AppError::Device(
                                DeviceError {
                                    fault: DeviceFault::AppletNotFound,
                                    bytes: trailer_bytes(r.as_slice()),
                                },
                            ),
                        ),
                    )
                }
            },
            CommandRun::AwaitReply { fault } => {
                if is_success(r.as_slice()) {
                    CommandStep::Finished(Ok(()))
                } else {
                    CommandStep::Finished(
                        Err(AppError::Device(DeviceError { fault, bytes: trailer_bytes(r.as_slice()) })),
                    )
                }
            },
        }
    }
}

/// The write frame for an update: an input error before any device I/O,
/// `None` when the update sets nothing (no session is needed), else the
/// frame carrying its TLV entries.
pub fn plan_config_write(u: &AppConfigInput) -> (r: Result<Option<Vec<u8>>, AppError>)
    ensures
        match encode_spec(*u) {
            Err(e) => r matches Err(AppError::Io(x)) && x == e,
            Ok(b) => if b.len() == 0 {
                r matches Ok(None)
            } else {
                r matches Ok(Some(f)) && f@ == config_write_frame(b)
            },
        },
{
    let tlv = encode_update(u)?;
    if tlv.len() == 0 {
        return Ok(None);
    }
    Ok(Some(config_write_command(&tlv)))
}

} // verus!
