//! On-device control layer for a hardware security token.
//!
//! The crate models the two hard subsystems of the device firmware: the
//! frame-buffer ownership and refresh discipline of the single physical
//! display (including the emergency rendering path used on fatal faults),
//! and the USB interrupt-endpoint interface state machine implementing a
//! strict alternating request/response transport.
//!
//! Hardware effects (panel refresh, LED writes, interrupt masking) are
//! modelled as a command log on [`board::KeepKeyBoard`]; an unverified
//! runtime performs the logged commands and feeds endpoint events back
//! into [`interface::KeepKeyInterface`].

pub mod types;
pub mod canvas;
pub mod singleton;
pub mod board;
pub mod interface;
pub mod peripheral;
pub mod serial;
