//! State the user interface keeps between refreshes.
use crate::types::{FidoDeviceInfo, FullDeviceStatus};
use vstd::prelude::*;

verus! {

/// The page shown.
#[derive(Clone, Copy, Debug, PartialEq, Eq, Structural)]
pub enum ActiveView {
    Home,
    Passkeys,
    Configuration,
    Security,
    Logs,
    About,
}

/// The last results of the device reads, and the last error to show.
#[derive(Clone, Debug, PartialEq)]
pub struct GlobalDeviceState {
    pub device_status: Option<FullDeviceStatus>,
    pub fido_info: Option<FidoDeviceInfo>,
    pub error: Option<String>,
}

impl GlobalDeviceState {
    /// Nothing read yet, no error.
    pub fn new() -> (s: Self)
        ensures
            s.device_status is None,
            s.fido_info is None,
            s.error is None,
    {
        GlobalDeviceState { device_status: None, fido_info: None, error: None }
    }

    /// Records the outcome of a status read (the snapshot, or the message of
    /// its error). Returns whether the FIDO information should be read next:
    /// only after a successful read. A failed read clears everything but the
    /// error.
    pub fn record_status(&mut self, result: Result<FullDeviceStatus, String>) -> (fetch_fido: bool)
        ensures
            fetch_fido == result is Ok,
            match result {
                Ok(st) => final(self).device_status == Some(st) && final(self).error is None
                    && final(self).fido_info == old(self).fido_info,
                Err(m) => final(self).device_status is None && final(self).fido_info is None && (
                final(self).error matches Some(e) && e@ == m@),
            },
    {
        match result {
            Ok(st) => {
                self.device_status = Some(st);
                self.error = None;
                true
            },
            Err(m) => {
                self.device_status = None;
                self.error = Some(m);
                self.fido_info = None;
                false
            },
        }
    }

    /// Records the outcome of a FIDO information read; a failure leaves no
    /// FIDO information and does not touch the rest.
    pub fn record_fido_info(&mut self, result: Result<FidoDeviceInfo, String>)
        ensures
            final(self).device_status == old(self).device_status,
            final(self).error == old(self).error,
            match result {
                Ok(info) => final(self).fido_info == Some(info),
                Err(_) => final(self).fido_info is None,
            },
    {
        self.fido_info = match result {
            Ok(info) => Some(info),
            Err(_) => None,
        };
    }
}

} // verus!
