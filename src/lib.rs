//! Protocol engine for the rescue applet of a hardware security token:
//! command frames, status trailers, the configuration TLV codec and the
//! step functions that drive a device session.
pub mod apdu;
pub mod fido_options;
pub mod form;
pub mod laws;
pub mod session;
pub mod status;
pub mod tlv;
pub mod types;
pub mod ui_state;
pub mod update;
pub mod wire;
